use crate::destination::{needs_directory_spec, DestinationModeView, Probe};
use crate::error::{message_text, CopyErrorView};
use crate::executor::{
    failure_spec,
    fresh_spec,
    proceed_spec,
    start_spec,
    step_spec,
    ActionView,
    CopyOutcomeView,
    EventView,
    Phase,
    RunView,
    StepView,
};
use crate::journal::{error_line, file_copied_line, total_line};
use crate::paths::{path_file_name, path_join, target_spec};
use vstd::prelude::*;

verus! {

/// The moves of a run that begins in state `v` and is told `events` one
/// after another, with the state it ends in. An event that the run does
/// not wait for, and all that follow it, are not answered.
pub open spec fn replay(v: RunView, events: Seq<EventView>) -> (RunView, Seq<StepView>)
    decreases events.len(),
{
    if events.len() == 0 || !v.expects(events[0]) {
        (v, Seq::empty())
    } else {
        let (next, step) = step_spec(v, events[0]);
        let (end, steps) = replay(next, events.skip(1));
        (end, seq![step] + steps)
    }
}

/// A whole run: its first move and then its answers to `events`.
pub open spec fn run_spec(
    sources: Seq<Seq<char>>,
    destination: Seq<char>,
    events: Seq<EventView>,
) -> (RunView, Seq<StepView>) {
    let (begun, first) = start_spec(sources, destination);
    let (end, steps) = replay(begun, events);
    (end, seq![first] + steps)
}

/// The events of copies that finished with these byte counts.
pub open spec fn copied_events(counts: Seq<nat>) -> Seq<EventView> {
    counts.map_values(|bytes: nat| EventView::Copied(CopyOutcomeView::Copied(bytes)))
}

/// The sum of the byte counts.
pub open spec fn sum(counts: Seq<nat>) -> nat
    decreases counts.len(),
{
    if counts.len() == 0 {
        0
    } else {
        counts[0] + sum(counts.skip(1))
    }
}

/// The mode that a run with these arguments copies in, once a look at the
/// destination, where one was needed, has found a directory.
pub open spec fn mode_for(source_count: nat, destination: Seq<char>) -> DestinationModeView {
    if needs_directory_spec(source_count) {
        DestinationModeView::DirectoryTarget(destination)
    } else {
        DestinationModeView::SingleFileTarget
    }
}

/// The events before the first copy where the destination is fit for the
/// sources: the answer that it is a directory, where the run asks at all.
pub open spec fn opening_events(source_count: nat) -> Seq<EventView> {
    if needs_directory_spec(source_count) {
        seq![EventView::Probed(Probe::Directory)]
    } else {
        Seq::empty()
    }
}

/// Whether each of the first `count` sources has a target in the run's mode.
pub open spec fn have_targets(sources: Seq<Seq<char>>, destination: Seq<char>, count: nat) -> bool {
    forall|i: int|
        0 <= i < count && i < sources.len() ==> (#[trigger] target_spec(
            mode_for(sources.len(), destination),
            sources[i],
            destination,
        )) is Ok
}

/// A run that is over answers nothing more.
pub proof fn law_finished_is_final(v: RunView, events: Seq<EventView>)
    requires
        v.phase == Phase::Finished,
    ensures
        replay(v, events) == (v, Seq::<StepView>::empty()),
{
}

/// Events answered in full can be told in two parts.
proof fn lemma_replay_parts(v: RunView, first: Seq<EventView>, rest: Seq<EventView>)
    requires
        replay(v, first).1.len() == first.len(),
    ensures
        replay(v, first + rest).0 == replay(replay(v, first).0, rest).0,
        replay(v, first + rest).1 == replay(v, first).1 + replay(replay(v, first).0, rest).1,
    decreases first.len(),
{
    if first.len() == 0 {
        assert(first + rest =~= rest);
        assert(replay(v, first).1 + replay(v, rest).1 =~= replay(v, rest).1);
    } else {
        let all = first + rest;
        assert(all[0] == first[0]);
        assert(all.skip(1) =~= first.skip(1) + rest);
        if v.expects(first[0]) {
            let (next, step) = step_spec(v, first[0]);
            lemma_replay_parts(next, first.skip(1), rest);
            assert(replay(v, all).1 =~= replay(v, first).1 + replay(replay(v, first).0, rest).1);
        }
    }
}

/// The move that follows a finished copy of `bytes` bytes: the copy is
/// traced, and then comes what the turn to the next source gives.
pub open spec fn after_copy(bytes: nat, turn: StepView) -> StepView {
    StepView { lines: seq![file_copied_line(bytes)] + turn.lines, action: turn.action }
}

/// What a run that waits for a copy makes of copies that all finish, as
/// long as each source it turns to before the last has a target.
proof fn lemma_copies(v: RunView, counts: Seq<nat>)
    requires
        v.wf(),
        v.phase == Phase::Copying,
        v.completed + counts.len() <= v.sources.len(),
        forall|i: int|
            v.completed < i < v.completed + counts.len() ==> (#[trigger] target_spec(
                v.mode,
                v.sources[i],
                v.destination,
            )) is Ok,
    ensures
        ({
            let (end, steps) = replay(v, copied_events(counts));
            let turned = RunView {
                completed: v.completed + counts.len(),
                total: v.total + sum(counts),
                ..v
            };
            &&& steps.len() == counts.len()
            &&& end.wf()
            &&& end.sources == v.sources
            &&& end.destination == v.destination
            &&& end.mode == v.mode
            &&& end.completed == turned.completed
            &&& end.total == turned.total
            &&& counts.len() == 0 ==> end == v
            &&& counts.len() > 0 ==> {
                &&& steps.last() == after_copy(counts.last(), proceed_spec(turned).1)
                &&& end.phase == proceed_spec(turned).0.phase
                &&& end.phase == Phase::Copying ==> end.target == proceed_spec(turned).0.target
            }
        }),
    decreases counts.len(),
{
    let events = copied_events(counts);
    if counts.len() > 0 {
        let bytes = counts[0];
        assert(events[0] == EventView::Copied(CopyOutcomeView::Copied(bytes)));
        assert(events.skip(1) =~= copied_events(counts.skip(1)));
        let counted = RunView { completed: v.completed + 1, total: v.total + bytes, ..v };
        let (next, step) = step_spec(v, events[0]);
        assert(next == proceed_spec(counted).0);
        assert(step == after_copy(bytes, proceed_spec(counted).1));
        let (end, steps) = replay(v, events);
        let (end_rest, steps_rest) = replay(next, events.skip(1));
        assert(steps =~= seq![step] + steps_rest);
        if counts.len() > 1 {
            let source = v.sources[counted.completed as int];
            assert(target_spec(v.mode, source, v.destination) is Ok);
            lemma_copies(next, counts.skip(1));
            assert(counts.skip(1).last() == counts.last());
            assert(steps.last() == steps_rest.last());
            let turned = RunView {
                completed: v.completed + counts.len(),
                total: v.total + sum(counts),
                ..v
            };
            let turned_rest = RunView {
                completed: next.completed + counts.skip(1).len(),
                total: next.total + sum(counts.skip(1)),
                ..next
            };
            assert(proceed_spec(turned).1 == proceed_spec(turned_rest).1);
            assert(proceed_spec(turned).0.phase == proceed_spec(turned_rest).0.phase);
            assert(proceed_spec(turned_rest).0.phase == Phase::Copying ==> proceed_spec(
                turned,
            ).0.target == proceed_spec(turned_rest).0.target);
        } else {
            assert(counts.skip(1).len() == 0);
            assert(sum(counts.skip(1)) == 0);
            assert(counts.last() == bytes);
            assert(steps_rest =~= Seq::<StepView>::empty());
            assert(steps.last() == step);
        }
    }
}

/// The first move with the opening events: the run turns to its first
/// source in the mode that fits its arguments.
proof fn lemma_opening(sources: Seq<Seq<char>>, destination: Seq<char>)
    ensures
        ({
            let (end, steps) = run_spec(sources, destination, opening_events(sources.len()));
            let turned = RunView {
                mode: mode_for(sources.len(), destination),
                ..fresh_spec(sources, destination)
            };
            &&& steps.len() == opening_events(sources.len()).len() + 1
            &&& end == proceed_spec(turned).0
            &&& steps.last().action == proceed_spec(turned).1.action
            &&& needs_directory_spec(sources.len()) ==> steps[0].action == (ActionView::Probe {
                path: destination,
            }) && steps.last() == proceed_spec(turned).1
        }),
{
    let events = opening_events(sources.len());
    let (begun, first) = start_spec(sources, destination);
    if needs_directory_spec(sources.len()) {
        let (next, step) = step_spec(begun, events[0]);
        assert(begun.expects(events[0]));
        assert(replay(next, events.skip(1)) == (next, Seq::<StepView>::empty()));
        assert(replay(begun, events).1 =~= seq![step]);
    } else {
        assert(replay(begun, events).1 =~= Seq::<StepView>::empty());
    }
}

/// The whole course of a run whose destination is fit and whose first
/// `counts.len()` copies finish, each source before the last one turned to
/// having a target.
proof fn lemma_course(sources: Seq<Seq<char>>, destination: Seq<char>, counts: Seq<nat>)
    requires
        counts.len() <= sources.len(),
        have_targets(sources, destination, counts.len()),
    ensures
        ({
            let events = opening_events(sources.len()) + copied_events(counts);
            let (end, steps) = run_spec(sources, destination, events);
            let turned = RunView {
                mode: mode_for(sources.len(), destination),
                completed: counts.len(),
                total: sum(counts),
                ..fresh_spec(sources, destination)
            };
            &&& steps.len() == events.len() + 1
            &&& replay(start_spec(sources, destination).0, events).1.len() == events.len()
            &&& end.sources == sources
            &&& end.destination == destination
            &&& end.mode == turned.mode
            &&& end.completed == turned.completed
            &&& end.total == turned.total
            &&& end.phase == proceed_spec(turned).0.phase
            &&& end.phase == Phase::Copying ==> end.target == proceed_spec(turned).0.target
            &&& steps.last().action == proceed_spec(turned).1.action
            &&& counts.len() > 0 ==> steps.last() == after_copy(
                counts.last(),
                proceed_spec(turned).1,
            )
            &&& end.wf()
        }),
{
    let opening = opening_events(sources.len());
    let events = opening + copied_events(counts);
    let begun = start_spec(sources, destination).0;
    let first = start_spec(sources, destination).1;
    lemma_opening(sources, destination);
    let (opened, opening_steps) = replay(begun, opening);
    assert(seq![first] + opening_steps =~= run_spec(sources, destination, opening).1);
    assert(opening_steps.len() == opening.len());
    lemma_replay_parts(begun, opening, copied_events(counts));
    let (end, later_steps) = replay(opened, copied_events(counts));
    let steps = run_spec(sources, destination, events).1;
    assert(steps =~= seq![first] + opening_steps + later_steps);
    if counts.len() == 0 {
        assert(later_steps =~= Seq::<StepView>::empty());
        assert(sum(counts) == 0);
        assert(steps.last() == run_spec(sources, destination, opening).1.last());
    } else {
        assert(target_spec(mode_for(sources.len(), destination), sources[0], destination) is Ok);
        assert forall|i: int| opened.completed < i < opened.completed + counts.len() implies (
        #[trigger] target_spec(opened.mode, opened.sources[i], opened.destination)) is Ok by {
            assert(target_spec(mode_for(sources.len(), destination), sources[i], destination) is Ok);
        }
        lemma_copies(opened, counts);
        assert(steps.last() == later_steps.last());
    }
}

/// Several sources and a destination that is no directory: the run asks
/// for a look at the destination and then ends with `InvalidDestination`.
/// It asks for no copy, reports no total, and answers nothing that follows.
pub proof fn law_invalid_destination_ends_run(
    sources: Seq<Seq<char>>,
    destination: Seq<char>,
    probe: Probe,
    later: Seq<EventView>,
)
    requires
        sources.len() > 1,
        probe != Probe::Directory,
    ensures
        ({
            let (end, steps) = run_spec(
                sources,
                destination,
                seq![EventView::Probed(probe)] + later,
            );
            &&& steps.len() == 2
            &&& steps[0].action == ActionView::Probe { path: destination }
            &&& steps[1].action matches ActionView::Fail(
                CopyErrorView::InvalidDestination { path, reason },
            ) && path == destination
            &&& end.phase == Phase::Finished
            &&& end.completed == 0
        }),
{
    let events = seq![EventView::Probed(probe)] + later;
    let begun = start_spec(sources, destination).0;
    let (next, step) = step_spec(begun, events[0]);
    law_finished_is_final(next, events.skip(1));
    assert(replay(begun, events).1 =~= seq![step]);
}

/// Sources are copied in the order given: after `counts.len()` finished
/// copies the run asks for the copy of the source that comes next, to the
/// target that the mode gives it.
pub proof fn law_copies_in_order(
    sources: Seq<Seq<char>>,
    destination: Seq<char>,
    counts: Seq<nat>,
)
    requires
        counts.len() < sources.len(),
        have_targets(sources, destination, counts.len() + 1),
    ensures
        ({
            let events = opening_events(sources.len()) + copied_events(counts);
            let (end, steps) = run_spec(sources, destination, events);
            let source = sources[counts.len() as int];
            &&& steps.len() == events.len() + 1
            &&& end.phase == Phase::Copying
            &&& end.completed == counts.len()
            &&& target_spec(mode_for(sources.len(), destination), source, destination) == Ok::<
                Seq<char>,
                CopyErrorView,
            >(end.target)
            &&& steps.last().action == ActionView::Copy { source, target: end.target }
        }),
{
    lemma_course(sources, destination, counts);
    let source = sources[counts.len() as int];
    assert(target_spec(mode_for(sources.len(), destination), source, destination) is Ok);
}

/// Several sources and a directory as destination: each source is copied
/// into the directory under its own file name.
pub proof fn law_directory_targets(
    sources: Seq<Seq<char>>,
    destination: Seq<char>,
    counts: Seq<nat>,
)
    requires
        sources.len() > 1,
        counts.len() < sources.len(),
        forall|i: int| 0 <= i <= counts.len() ==> (#[trigger] path_file_name(sources[i])) is Some,
    ensures
        ({
            let events = seq![EventView::Probed(Probe::Directory)] + copied_events(counts);
            let (end, steps) = run_spec(sources, destination, events);
            let source = sources[counts.len() as int];
            steps.last().action == ActionView::Copy {
                source,
                target: path_join(destination, path_file_name(source).unwrap()),
            }
        }),
{
    assert forall|i: int| 0 <= i < counts.len() + 1 && i < sources.len() implies (
    #[trigger] target_spec(mode_for(sources.len(), destination), sources[i], destination)) is Ok by {
        assert(path_file_name(sources[i]) is Some);
    }
    assert(opening_events(sources.len()) =~= seq![EventView::Probed(Probe::Directory)]);
    law_copies_in_order(sources, destination, counts);
    assert(path_file_name(sources[counts.len() as int]) is Some);
}

/// A run whose copies all finish reports the sum of their byte counts, in
/// its last line and in its last action, and nothing else as the total.
pub proof fn law_total_is_sum(sources: Seq<Seq<char>>, destination: Seq<char>, counts: Seq<nat>)
    requires
        counts.len() == sources.len(),
        have_targets(sources, destination, sources.len()),
    ensures
        ({
            let events = opening_events(sources.len()) + copied_events(counts);
            let (end, steps) = run_spec(sources, destination, events);
            &&& steps.len() == events.len() + 1
            &&& end.phase == Phase::Finished
            &&& end.total == sum(counts)
            &&& steps.last().action == ActionView::Finish { total: sum(counts) }
            &&& steps.last().lines.last() == total_line(sum(counts))
        }),
{
    lemma_course(sources, destination, counts);
    let steps = run_spec(
        sources,
        destination,
        opening_events(sources.len()) + copied_events(counts),
    ).1;
    if counts.len() == 0 {
        lemma_opening(sources, destination);
        assert(opening_events(sources.len()) + copied_events(counts) =~= opening_events(
            sources.len(),
        ));
        assert(steps.last().lines.last() == total_line(0));
    }
}

/// The first copy that fails ends the run: the error is the one that the
/// failure stands for, it is the only thing reported, and no later source
/// is turned to, whatever is told afterwards.
pub proof fn law_first_failure_ends_run(
    sources: Seq<Seq<char>>,
    destination: Seq<char>,
    counts: Seq<nat>,
    failure: CopyOutcomeView,
    later: Seq<EventView>,
)
    requires
        !(failure is Copied),
        counts.len() < sources.len(),
        have_targets(sources, destination, counts.len() + 1),
    ensures
        ({
            let answered = opening_events(sources.len()) + copied_events(counts)
                + seq![EventView::Copied(failure)];
            let (end, steps) = run_spec(sources, destination, answered + later);
            let source = sources[counts.len() as int];
            let target = target_spec(
                mode_for(sources.len(), destination),
                source,
                destination,
            )->Ok_0;
            let error = failure_spec(failure, source, target);
            &&& steps.len() == answered.len() + 1
            &&& end.phase == Phase::Finished
            &&& end.completed == counts.len()
            &&& steps.last() == StepView {
                lines: seq![error_line(message_text(error))],
                action: ActionView::Fail(error),
            }
        }),
{
    let before = opening_events(sources.len()) + copied_events(counts);
    let rest = seq![EventView::Copied(failure)] + later;
    let begun = start_spec(sources, destination).0;
    let first = start_spec(sources, destination).1;
    law_copies_in_order(sources, destination, counts);
    lemma_course(sources, destination, counts);
    lemma_replay_parts(begun, before, rest);
    let (waiting, steps_before) = replay(begun, before);
    let (over, step) = step_spec(waiting, rest[0]);
    law_finished_is_final(over, rest.skip(1));
    assert(replay(waiting, rest).1 =~= seq![step]);
    let answered = before + seq![EventView::Copied(failure)];
    assert(answered + later =~= before + rest);
    let steps = run_spec(sources, destination, answered + later).1;
    assert(steps =~= seq![first] + steps_before + seq![step]);
}

/// In a directory, a source without a file name ends the run when it is
/// turned to: the copy is announced, and then the run fails with
/// `MalformedSourcePath` and answers nothing that follows.
pub proof fn law_malformed_source_ends_run(
    sources: Seq<Seq<char>>,
    destination: Seq<char>,
    counts: Seq<nat>,
    later: Seq<EventView>,
)
    requires
        sources.len() > 1,
        counts.len() < sources.len(),
        have_targets(sources, destination, counts.len()),
        path_file_name(sources[counts.len() as int]) is None,
    ensures
        ({
            let answered = opening_events(sources.len()) + copied_events(counts);
            let (end, steps) = run_spec(sources, destination, answered + later);
            &&& steps.len() == answered.len() + 1
            &&& end.phase == Phase::Finished
            &&& end.completed == counts.len()
            &&& steps.last().action == ActionView::Fail(CopyErrorView::MalformedSourcePath)
        }),
{
    let answered = opening_events(sources.len()) + copied_events(counts);
    let begun = start_spec(sources, destination).0;
    let first = start_spec(sources, destination).1;
    lemma_course(sources, destination, counts);
    lemma_replay_parts(begun, answered, later);
    let (over, steps_answered) = replay(begun, answered);
    law_finished_is_final(over, later);
    let steps = run_spec(sources, destination, answered + later).1;
    assert(steps =~= seq![first] + steps_answered);
    assert(steps =~= run_spec(sources, destination, answered).1);
}

} // verus!
