use crate::destination::{
    needs_directory,
    needs_directory_spec,
    resolve,
    resolve_spec,
    DestinationMode,
    DestinationModeView,
    Probe,
};
use crate::error::{message_text, CopyError, CopyErrorView};
use crate::journal::{
    arrow_line,
    destination_line,
    error_line,
    file_copied_line,
    lines_view,
    sources_line,
    total_line,
    LogLine,
    LogLineView,
};
use crate::paths::{target_path, target_spec};
use crate::text::texts;
use vstd::prelude::*;

verus! {

/// Where a run stands.
#[derive(Clone, Copy, Debug, PartialEq, Eq, Structural)]
pub enum Phase {
    /// The run has asked what the destination is and waits for the answer.
    AwaitingProbe,
    /// The run has asked for one copy and waits for its outcome.
    Copying,
    /// The run is over, with a total or with an error.
    Finished,
}

/// How the copy of one file ended.
#[derive(Clone, Debug, PartialEq, Eq)]
pub enum CopyOutcome {
    /// All bytes were transferred; this many.
    Copied(u64),
    /// The source could not be opened; the words of the failure.
    SourceUnreadable(String),
    /// The target could not be created; the words of the failure.
    DestinationUnwritable(String),
    /// Reading or writing failed on the way; the words of the failure.
    TransferFailed(String),
}

/// A `CopyOutcome` with the contents of its strings.
pub enum CopyOutcomeView {
    Copied(nat),
    SourceUnreadable(Seq<char>),
    DestinationUnwritable(Seq<char>),
    TransferFailed(Seq<char>),
}

impl View for CopyOutcome {
    type V = CopyOutcomeView;

    open spec fn view(&self) -> CopyOutcomeView {
        match *self {
            CopyOutcome::Copied(bytes) => CopyOutcomeView::Copied(bytes as nat),
            CopyOutcome::SourceUnreadable(cause) => CopyOutcomeView::SourceUnreadable(cause@),
            CopyOutcome::DestinationUnwritable(cause) => CopyOutcomeView::DestinationUnwritable(
                cause@,
            ),
            CopyOutcome::TransferFailed(cause) => CopyOutcomeView::TransferFailed(cause@),
        }
    }
}

/// What the world answers to an action.
#[derive(Clone, Debug, PartialEq, Eq)]
pub enum Event {
    /// The answer to `Action::Probe`.
    Probed(Probe),
    /// The answer to `Action::Copy`.
    Copied(CopyOutcome),
}

/// An `Event` with the contents of its strings.
pub enum EventView {
    Probed(Probe),
    Copied(CopyOutcomeView),
}

impl View for Event {
    type V = EventView;

    open spec fn view(&self) -> EventView {
        match *self {
            Event::Probed(probe) => EventView::Probed(probe),
            Event::Copied(outcome) => EventView::Copied(outcome@),
        }
    }
}

/// What a run asks of the world next, or how it ended.
#[derive(Clone, Debug, PartialEq, Eq)]
pub enum Action {
    /// Look up what stands at `path`, and answer with `Event::Probed`.
    Probe { path: String },
    /// Copy the bytes of `source` to `target`, creating or overwriting it,
    /// and answer with `Event::Copied`.
    Copy { source: String, target: String },
    /// Every source was copied; `total` bytes in all. The run is over.
    Finish { total: u64 },
    /// The run is over without a total.
    Fail(CopyError),
}

/// An `Action` with the contents of its strings.
pub enum ActionView {
    Probe { path: Seq<char> },
    Copy { source: Seq<char>, target: Seq<char> },
    Finish { total: nat },
    Fail(CopyErrorView),
}

impl View for Action {
    type V = ActionView;

    open spec fn view(&self) -> ActionView {
        match *self {
            Action::Probe { path } => ActionView::Probe { path: path@ },
            Action::Copy { source, target } => ActionView::Copy {
                source: source@,
                target: target@,
            },
            Action::Finish { total } => ActionView::Finish { total: total as nat },
            Action::Fail(error) => ActionView::Fail(error@),
        }
    }
}

/// One move of a run: the lines to log, in order, and then what to do.
#[derive(Clone, Debug, PartialEq, Eq)]
pub struct Step {
    pub lines: Vec<LogLine>,
    pub action: Action,
}

/// A `Step` with the contents of its strings.
pub struct StepView {
    pub lines: Seq<LogLineView>,
    pub action: ActionView,
}

impl View for Step {
    type V = StepView;

    open spec fn view(&self) -> StepView {
        StepView { lines: lines_view(self.lines@), action: self.action@ }
    }
}

/// The state of a run as a plain value.
pub struct RunView {
    /// The sources, in the order in which they are copied.
    pub sources: Seq<Seq<char>>,
    /// The destination as it was given.
    pub destination: Seq<char>,
    /// The mode in force: a single file target until a directory is resolved.
    pub mode: DestinationModeView,
    pub phase: Phase,
    /// How many sources have been copied.
    pub completed: nat,
    /// The bytes copied so far.
    pub total: nat,
    /// The target of the copy last asked for; empty before the first.
    pub target: Seq<char>,
}

impl RunView {
    /// A run never counts more copies than it has sources, and while it
    /// waits for a copy there is a source that is being copied.
    pub open spec fn wf(self) -> bool {
        &&& self.completed <= self.sources.len()
        &&& self.phase == Phase::Copying ==> self.completed < self.sources.len()
    }

    /// Whether the run waits for this kind of event.
    pub open spec fn expects(self, event: EventView) -> bool {
        match event {
            EventView::Probed(_) => self.phase == Phase::AwaitingProbe,
            EventView::Copied(_) => self.phase == Phase::Copying,
        }
    }

    /// The run as it is over, all else unchanged.
    pub open spec fn finished(self) -> RunView {
        RunView { phase: Phase::Finished, ..self }
    }
}

/// The end of a run by an error: one error line with its message.
pub open spec fn fail_spec(v: RunView, error: CopyErrorView) -> (RunView, StepView) {
    (
        v.finished(),
        StepView { lines: seq![error_line(message_text(error))], action: ActionView::Fail(error) },
    )
}

/// The error that the failed copy of `source` to `target` stands for.
pub open spec fn failure_spec(
    outcome: CopyOutcomeView,
    source: Seq<char>,
    target: Seq<char>,
) -> CopyErrorView
    recommends
        !(outcome is Copied),
{
    match outcome {
        CopyOutcomeView::SourceUnreadable(cause) => CopyErrorView::SourceUnreadable {
            path: source,
            cause,
        },
        CopyOutcomeView::DestinationUnwritable(cause) => CopyErrorView::DestinationUnwritable {
            path: target,
            cause,
        },
        CopyOutcomeView::TransferFailed(cause) => CopyErrorView::CopyIoError { cause },
        CopyOutcomeView::Copied(_) => CopyErrorView::CopyIoError { cause: Seq::empty() },
    }
}

/// Turns to the next source. With none left the run finishes and reports
/// its total. Else the copy is announced; it is asked for where the source
/// has a target, and the run fails where it has none.
pub open spec fn proceed_spec(v: RunView) -> (RunView, StepView) {
    if v.completed >= v.sources.len() {
        (
            v.finished(),
            StepView {
                lines: seq![total_line(v.total)],
                action: ActionView::Finish { total: v.total },
            },
        )
    } else {
        let source = v.sources[v.completed as int];
        let announced = seq![arrow_line(source, v.destination)];
        match target_spec(v.mode, source, v.destination) {
            Ok(target) => (
                RunView { phase: Phase::Copying, target, ..v },
                StepView { lines: announced, action: ActionView::Copy { source, target } },
            ),
            Err(error) => {
                let (over, last) = fail_spec(v, error);
                (over, StepView { lines: announced + last.lines, action: last.action })
            },
        }
    }
}

/// A run before its first move: nothing copied, nothing resolved.
pub open spec fn fresh_spec(sources: Seq<Seq<char>>, destination: Seq<char>) -> RunView {
    RunView {
        sources,
        destination,
        mode: DestinationModeView::SingleFileTarget,
        phase: Phase::AwaitingProbe,
        completed: 0,
        total: 0,
        target: Seq::empty(),
    }
}

/// The first move of a run: both arguments are traced, and then several
/// sources ask for a look at the destination, while at most one source
/// goes straight to its copy.
pub open spec fn start_spec(sources: Seq<Seq<char>>, destination: Seq<char>) -> (
    RunView,
    StepView,
) {
    let opening = seq![sources_line(sources), destination_line(destination)];
    let fresh = fresh_spec(sources, destination);
    if needs_directory_spec(sources.len()) {
        (fresh, StepView { lines: opening, action: ActionView::Probe { path: destination } })
    } else {
        let (next, first) = proceed_spec(fresh);
        (next, StepView { lines: opening + first.lines, action: first.action })
    }
}

/// The move that answers an event. A look at the destination settles the
/// mode or ends the run. A finished copy is traced and counted, and the
/// run turns to the next source; a failed copy ends the run at once.
pub open spec fn step_spec(v: RunView, event: EventView) -> (RunView, StepView) {
    match event {
        EventView::Probed(probe) => match resolve_spec(v.sources.len(), v.destination, probe) {
            Ok(mode) => proceed_spec(RunView { mode, ..v }),
            Err(error) => fail_spec(v, error),
        },
        EventView::Copied(CopyOutcomeView::Copied(bytes)) => {
            let (next, rest) = proceed_spec(
                RunView { completed: v.completed + 1, total: v.total + bytes, ..v },
            );
            (
                next,
                StepView { lines: seq![file_copied_line(bytes)] + rest.lines, action: rest.action },
            )
        },
        EventView::Copied(outcome) => fail_spec(
            v,
            failure_spec(outcome, v.sources[v.completed as int], v.target),
        ),
    }
}

/// The decisions of one run, move by move. The run asks for actions and
/// is told their outcomes; it touches no file itself.
#[derive(Debug)]
pub struct Run {
    sources: Vec<String>,
    destination: String,
    mode: DestinationMode,
    phase: Phase,
    completed: usize,
    total: u64,
    target: String,
}

impl View for Run {
    type V = RunView;

    closed spec fn view(&self) -> RunView {
        RunView {
            sources: texts(self.sources@),
            destination: self.destination@,
            mode: self.mode@,
            phase: self.phase,
            completed: self.completed as nat,
            total: self.total as nat,
            target: self.target@,
        }
    }
}

/// Ends the run by `error`.
fn fail(run: &mut Run, error: CopyError) -> (step: Step)
    ensures
        (final(run)@, step@) == fail_spec(old(run)@, error@),
{
    run.phase = Phase::Finished;
    let mut lines: Vec<LogLine> = Vec::new();
    lines.push(LogLine::error(error.message()));
    assert(lines_view(lines@) =~= seq![error_line(message_text(error@))]);
    Step { lines, action: Action::Fail(error) }
}

/// Turns to the next source; `lines` holds what is to be logged before.
fn proceed(run: &mut Run, lines: Vec<LogLine>) -> (step: Step)
    requires
        old(run)@.completed <= old(run)@.sources.len(),
    ensures
        final(run)@ == proceed_spec(old(run)@).0,
        step@.lines == lines_view(lines@) + proceed_spec(old(run)@).1.lines,
        step@.action == proceed_spec(old(run)@).1.action,
        final(run)@.wf(),
{
    let mut lines = lines;
    let ghost before = lines_view(lines@);
    if run.completed >= run.sources.len() {
        run.phase = Phase::Finished;
        lines.push(LogLine::total(run.total));
        assert(lines_view(lines@) =~= before + seq![total_line(run.total as nat)]);
        Step { lines, action: Action::Finish { total: run.total } }
    } else {
        let source = run.sources[run.completed].clone();
        assert(source@ == run@.sources[run@.completed as int]);
        lines.push(LogLine::arrow(source.as_str(), run.destination.as_str()));
        let ghost announced = seq![arrow_line(source@, run.destination@)];
        assert(lines_view(lines@) =~= before + announced);
        match target_path(&run.mode, source.as_str(), run.destination.as_str()) {
            Ok(target) => {
                run.phase = Phase::Copying;
                run.target = target.clone();
                Step { lines, action: Action::Copy { source, target } }
            },
            Err(error) => {
                let last = fail(run, error);
                let ghost closing = lines_view(last.lines@);
                let mut closing_lines = last.lines;
                lines.append(&mut closing_lines);
                assert(lines_view(lines@) =~= before + (announced + closing));
                Step { lines, action: last.action }
            },
        }
    }
}

impl Run {
    /// Whether the state is well formed.
    pub open spec fn wf(&self) -> bool {
        self@.wf()
    }

    /// Begins a run on the sources, in their order, and the destination.
    pub fn start(sources: Vec<String>, destination: String) -> (begun: (Run, Step))
        ensures
            begun.0.wf(),
            (begun.0@, begun.1@) == start_spec(texts(sources@), destination@),
    {
        let mut lines: Vec<LogLine> = Vec::new();
        lines.push(LogLine::sources(&sources));
        lines.push(LogLine::destination(destination.as_str()));
        let ghost opening = seq![sources_line(texts(sources@)), destination_line(destination@)];
        assert(lines_view(lines@) =~= opening);
        let asks = needs_directory(sources.len());
        let path = destination.clone();
        let mut run = Run {
            sources,
            destination,
            mode: DestinationMode::SingleFileTarget,
            phase: Phase::AwaitingProbe,
            completed: 0,
            total: 0,
            target: String::new(),
        };
        if asks {
            (run, Step { lines, action: Action::Probe { path } })
        } else {
            let step = proceed(&mut run, lines);
            (run, step)
        }
    }

    /// Whether the run waits for this kind of event.
    pub fn expects(&self, event: &Event) -> (expected: bool)
        ensures
            expected == self@.expects(event@),
    {
        match event {
            Event::Probed(_) => matches!(self.phase, Phase::AwaitingProbe),
            Event::Copied(_) => matches!(self.phase, Phase::Copying),
        }
    }

    /// Where the run stands.
    pub fn phase(&self) -> (phase: Phase)
        ensures
            phase == self@.phase,
    {
        self.phase
    }

    /// How many sources have been copied.
    pub fn completed(&self) -> (completed: usize)
        ensures
            completed == self@.completed,
    {
        self.completed
    }

    /// The bytes copied so far.
    pub fn total(&self) -> (total: u64)
        ensures
            total == self@.total,
    {
        self.total
    }

    /// Answers an event with the next move. The event has to be the one
    /// the run waits for, and the bytes of a finished copy have to fit
    /// into the total.
    pub fn step(&mut self, event: Event) -> (step: Step)
        requires
            old(self).wf(),
            old(self)@.expects(event@),
            event@ matches EventView::Copied(CopyOutcomeView::Copied(bytes)) ==> old(self)@.total
                + bytes <= u64::MAX,
        ensures
            final(self).wf(),
            (final(self)@, step@) == step_spec(old(self)@, event@),
    {
        match event {
            Event::Probed(probe) => {
                match resolve(self.sources.len(), self.destination.as_str(), probe) {
                    Ok(mode) => {
                        self.mode = mode;
                        proceed(self, Vec::new())
                    },
                    Err(error) => fail(self, error),
                }
            },
            Event::Copied(CopyOutcome::Copied(bytes)) => {
                assert(self.completed < self.sources.len()) by {
                    assert(self@.expects(event@));
                    assert(self@.sources.len() == self.sources.len());
                }
                self.completed = self.completed + 1;
                self.total = self.total + bytes;
                let mut lines: Vec<LogLine> = Vec::new();
                lines.push(LogLine::file_copied(bytes));
                assert(lines_view(lines@) =~= seq![file_copied_line(bytes as nat)]);
                proceed(self, lines)
            },
            Event::Copied(CopyOutcome::SourceUnreadable(cause)) => {
                let path = self.sources[self.completed].clone();
                fail(self, CopyError::SourceUnreadable { path, cause })
            },
            Event::Copied(CopyOutcome::DestinationUnwritable(cause)) => {
                let path = self.target.clone();
                fail(self, CopyError::DestinationUnwritable { path, cause })
            },
            Event::Copied(CopyOutcome::TransferFailed(cause)) => {
                fail(self, CopyError::CopyIoError { cause })
            },
        }
    }
}

} // verus!
