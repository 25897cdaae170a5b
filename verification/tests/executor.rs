use filecopy::destination::Probe;
use filecopy::error::{CopyError, InvalidReason};
use filecopy::executor::{Action, CopyOutcome, Event, Phase, Run, Step};
use filecopy::invocation::Invocation;
use filecopy::journal::{LogLine, Severity};

fn paths(items: &[&str]) -> Vec<String> {
    items.iter().map(|item| String::from(*item)).collect()
}

fn line(severity: Severity, text: &str) -> LogLine {
    LogLine { severity, text: String::from(text) }
}

fn copy(source: &str, target: &str) -> Action {
    Action::Copy { source: String::from(source), target: String::from(target) }
}

fn copied(bytes: u64) -> Event {
    Event::Copied(CopyOutcome::Copied(bytes))
}

#[test]
fn one_source_is_copied_to_the_destination() {
    let (mut run, first) = Run::start(paths(&["a.txt"]), String::from("b.txt"));
    assert_eq!(
        first,
        Step {
            lines: vec![
                line(Severity::Trace, "Sources: [\"a.txt\"]"),
                line(Severity::Trace, "Destination: \"b.txt\""),
                line(Severity::Debug, "'a.txt' -> 'b.txt'"),
            ],
            action: copy("a.txt", "b.txt"),
        }
    );
    assert_eq!(run.phase(), Phase::Copying);
    let last = run.step(copied(5));
    assert_eq!(
        last,
        Step {
            lines: vec![
                line(Severity::Trace, "Copied 5 bytes"),
                line(Severity::Info, "Copied 5 bytes"),
            ],
            action: Action::Finish { total: 5 },
        }
    );
    assert_eq!(run.phase(), Phase::Finished);
    assert_eq!(run.total(), 5);
    assert_eq!(run.completed(), 1);
}

#[test]
fn several_sources_into_a_file_fail_before_any_copy() {
    let (mut run, first) = Run::start(paths(&["a.txt", "b.txt"]), String::from("/tmp/out"));
    assert_eq!(
        first,
        Step {
            lines: vec![
                line(Severity::Trace, "Sources: [\"a.txt\", \"b.txt\"]"),
                line(Severity::Trace, "Destination: \"/tmp/out\""),
            ],
            action: Action::Probe { path: String::from("/tmp/out") },
        }
    );
    assert_eq!(run.phase(), Phase::AwaitingProbe);
    let last = run.step(Event::Probed(Probe::NotDirectory));
    assert_eq!(
        last,
        Step {
            lines: vec![line(
                Severity::Error,
                "specified destination '/tmp/out' is not a directory"
            )],
            action: Action::Fail(CopyError::InvalidDestination {
                path: String::from("/tmp/out"),
                reason: InvalidReason::NotDirectory,
            }),
        }
    );
    assert_eq!(run.phase(), Phase::Finished);
    assert_eq!(run.completed(), 0);
    assert_eq!(run.total(), 0);
    assert!(!run.expects(&copied(1)));
    assert!(!run.expects(&Event::Probed(Probe::Directory)));
}

#[test]
fn several_sources_into_a_missing_path_fail_before_any_copy() {
    let (mut run, _) = Run::start(paths(&["a.txt", "b.txt", "c.txt"]), String::from("nowhere"));
    let last = run.step(Event::Probed(Probe::Unavailable));
    assert_eq!(
        last.action,
        Action::Fail(CopyError::InvalidDestination {
            path: String::from("nowhere"),
            reason: InvalidReason::Unavailable,
        })
    );
    assert_eq!(
        last.lines,
        vec![line(Severity::Error, "specified destination 'nowhere' is not a directory")]
    );
    assert_eq!(run.phase(), Phase::Finished);
}

#[test]
fn an_empty_file_is_copied_with_a_count_of_zero() {
    let (mut run, first) = Run::start(paths(&["empty"]), String::from("copy"));
    assert_eq!(first.action, copy("empty", "copy"));
    let last = run.step(copied(0));
    assert_eq!(last.action, Action::Finish { total: 0 });
    assert_eq!(
        last.lines,
        vec![line(Severity::Trace, "Copied 0 bytes"), line(Severity::Info, "Copied 0 bytes")]
    );
}

#[test]
fn the_reported_count_is_the_count_of_the_copy() {
    for bytes in [1u64, 4096, 1 << 40, u64::MAX] {
        let (mut run, _) = Run::start(paths(&["big"]), String::from("copy"));
        let last = run.step(copied(bytes));
        assert_eq!(last.action, Action::Finish { total: bytes });
        assert_eq!(run.total(), bytes);
    }
}

#[test]
fn several_sources_go_into_the_directory_under_their_own_names() {
    let (mut run, first) = Run::start(paths(&["x/a.txt", "b.txt", "/y/z/c.txt"]), String::from("out"));
    assert_eq!(first.action, Action::Probe { path: String::from("out") });
    let second = run.step(Event::Probed(Probe::Directory));
    assert_eq!(
        second,
        Step {
            lines: vec![line(Severity::Debug, "'x/a.txt' -> 'out'")],
            action: copy("x/a.txt", "out/a.txt"),
        }
    );
    let third = run.step(copied(3));
    assert_eq!(
        third,
        Step {
            lines: vec![
                line(Severity::Trace, "Copied 3 bytes"),
                line(Severity::Debug, "'b.txt' -> 'out'"),
            ],
            action: copy("b.txt", "out/b.txt"),
        }
    );
    assert_eq!(run.completed(), 1);
    assert_eq!(run.total(), 3);
    let fourth = run.step(copied(4));
    assert_eq!(fourth.action, copy("/y/z/c.txt", "out/c.txt"));
    let last = run.step(copied(10));
    assert_eq!(
        last,
        Step {
            lines: vec![
                line(Severity::Trace, "Copied 10 bytes"),
                line(Severity::Info, "Copied 17 bytes"),
            ],
            action: Action::Finish { total: 17 },
        }
    );
    assert_eq!(run.completed(), 3);
    assert_eq!(run.phase(), Phase::Finished);
}

#[test]
fn a_source_that_cannot_be_opened_ends_the_run() {
    let (mut run, _) = Run::start(paths(&["a.txt"]), String::from("b.txt"));
    let cause = "No such file or directory (os error 2)";
    let last = run.step(Event::Copied(CopyOutcome::SourceUnreadable(String::from(cause))));
    assert_eq!(
        last,
        Step {
            lines: vec![line(Severity::Error, cause)],
            action: Action::Fail(CopyError::SourceUnreadable {
                path: String::from("a.txt"),
                cause: String::from(cause),
            }),
        }
    );
    assert_eq!(run.phase(), Phase::Finished);
}

#[test]
fn a_target_that_cannot_be_created_ends_the_run() {
    let (mut run, _) = Run::start(paths(&["d/a.txt", "b.txt"]), String::from("/out"));
    run.step(Event::Probed(Probe::Directory));
    let cause = "Permission denied (os error 13)";
    let last = run.step(Event::Copied(CopyOutcome::DestinationUnwritable(String::from(cause))));
    assert_eq!(
        last,
        Step {
            lines: vec![line(Severity::Error, cause)],
            action: Action::Fail(CopyError::DestinationUnwritable {
                path: String::from("/out/a.txt"),
                cause: String::from(cause),
            }),
        }
    );
}

#[test]
fn a_transfer_that_fails_ends_the_run() {
    let (mut run, _) = Run::start(paths(&["a.txt"]), String::from("b.txt"));
    let cause = "Input/output error (os error 5)";
    let last = run.step(Event::Copied(CopyOutcome::TransferFailed(String::from(cause))));
    assert_eq!(
        last,
        Step {
            lines: vec![line(Severity::Error, cause)],
            action: Action::Fail(CopyError::CopyIoError { cause: String::from(cause) }),
        }
    );
}

#[test]
fn the_first_failure_stops_the_run_and_reports_no_total() {
    let (mut run, _) = Run::start(paths(&["a", "b", "c"]), String::from("out"));
    run.step(Event::Probed(Probe::Directory));
    let second = run.step(copied(8));
    assert_eq!(second.action, copy("b", "out/b"));
    let last = run.step(Event::Copied(CopyOutcome::SourceUnreadable(String::from("gone"))));
    assert_eq!(
        last.action,
        Action::Fail(CopyError::SourceUnreadable {
            path: String::from("b"),
            cause: String::from("gone"),
        })
    );
    assert_eq!(last.lines, vec![line(Severity::Error, "gone")]);
    assert_eq!(run.phase(), Phase::Finished);
    assert_eq!(run.completed(), 1);
    assert!(!run.expects(&copied(1)));
    assert!(!run.expects(&Event::Probed(Probe::Directory)));
}

#[test]
fn a_source_without_a_file_name_ends_the_run_when_it_is_reached() {
    let (mut run, _) = Run::start(paths(&["a.txt", "/", "c.txt"]), String::from("out"));
    let second = run.step(Event::Probed(Probe::Directory));
    assert_eq!(second.action, copy("a.txt", "out/a.txt"));
    let last = run.step(copied(2));
    assert_eq!(
        last,
        Step {
            lines: vec![
                line(Severity::Trace, "Copied 2 bytes"),
                line(Severity::Debug, "'/' -> 'out'"),
                line(Severity::Error, "source path has no file name"),
            ],
            action: Action::Fail(CopyError::MalformedSourcePath),
        }
    );
    assert_eq!(run.phase(), Phase::Finished);
    assert_eq!(run.completed(), 1);
}

#[test]
fn an_empty_source_is_malformed_in_a_directory() {
    let (mut run, _) = Run::start(paths(&["", "b"]), String::from("out"));
    let last = run.step(Event::Probed(Probe::Directory));
    assert_eq!(last.action, Action::Fail(CopyError::MalformedSourcePath));
    assert_eq!(
        last.lines,
        vec![
            line(Severity::Debug, "'' -> 'out'"),
            line(Severity::Error, "source path has no file name"),
        ]
    );
}

#[test]
fn one_source_needs_no_file_name() {
    let (run, first) = Run::start(paths(&["/"]), String::from("b.txt"));
    assert_eq!(first.action, copy("/", "b.txt"));
    assert_eq!(run.phase(), Phase::Copying);
}

#[test]
fn one_source_is_not_probed_even_if_the_destination_is_a_directory() {
    let (run, first) = Run::start(paths(&["a.txt"]), String::from("/tmp"));
    assert_eq!(first.action, copy("a.txt", "/tmp"));
    assert!(!run.expects(&Event::Probed(Probe::Directory)));
    assert!(run.expects(&copied(0)));
}

#[test]
fn no_source_finishes_at_once() {
    let (run, first) = Run::start(Vec::new(), String::from("b.txt"));
    assert_eq!(
        first,
        Step {
            lines: vec![
                line(Severity::Trace, "Sources: []"),
                line(Severity::Trace, "Destination: \"b.txt\""),
                line(Severity::Info, "Copied 0 bytes"),
            ],
            action: Action::Finish { total: 0 },
        }
    );
    assert_eq!(run.phase(), Phase::Finished);
}

#[test]
fn a_run_waits_for_the_answer_to_its_action() {
    let (mut run, _) = Run::start(paths(&["a", "b"]), String::from("out"));
    assert!(run.expects(&Event::Probed(Probe::Directory)));
    assert!(!run.expects(&copied(1)));
    run.step(Event::Probed(Probe::Directory));
    assert!(!run.expects(&Event::Probed(Probe::Directory)));
    assert!(run.expects(&copied(1)));
    assert!(run.expects(&Event::Copied(CopyOutcome::TransferFailed(String::new()))));
}

#[test]
fn a_copy_there_and_back_asks_for_both_directions() {
    let (mut there, first) = Run::start(paths(&["notes.txt"]), String::from("notes.bak"));
    assert_eq!(first.action, copy("notes.txt", "notes.bak"));
    assert_eq!(there.step(copied(12)).action, Action::Finish { total: 12 });
    let (mut back, first) = Run::start(paths(&["notes.bak"]), String::from("notes.txt"));
    assert_eq!(first.action, copy("notes.bak", "notes.txt"));
    assert_eq!(back.step(copied(12)).action, Action::Finish { total: 12 });
}

#[test]
fn an_invocation_runs_on_its_split_paths() {
    let invocation = Invocation::new(2, paths(&["a.txt", "b.txt", "dir"])).unwrap();
    let (sources, destination) = invocation.split();
    let (mut run, first) = Run::start(sources, destination);
    assert_eq!(first.action, Action::Probe { path: String::from("dir") });
    assert_eq!(run.step(Event::Probed(Probe::Directory)).action, copy("a.txt", "dir/a.txt"));
    assert_eq!(run.step(copied(1)).action, copy("b.txt", "dir/b.txt"));
    assert_eq!(run.step(copied(2)).action, Action::Finish { total: 3 });
}
