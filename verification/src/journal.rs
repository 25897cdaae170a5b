use crate::text::{debug_form, debug_list, decimal, push_debug, push_debug_list, push_decimal, texts};
use vstd::prelude::*;

verus! {

/// How urgent a log line is, from the most to the least urgent.
#[derive(Clone, Copy, Debug, PartialEq, Eq, Structural)]
pub enum Severity {
    Error,
    Warn,
    Info,
    Debug,
    Trace,
}

impl Severity {
    /// Position of the severity in the order of urgency, `Error` first.
    pub open spec fn rank(self) -> nat {
        match self {
            Severity::Error => 0,
            Severity::Warn => 1,
            Severity::Info => 2,
            Severity::Debug => 3,
            Severity::Trace => 4,
        }
    }
}

/// The rank of the least urgent severity that is shown at a verbosity:
/// warnings with no flag, then one more level per flag, up to traces.
pub open spec fn threshold_rank(verbosity: nat) -> nat {
    if verbosity >= 3 {
        4
    } else {
        verbosity + 1
    }
}

/// The least urgent severity that is still shown at the given verbosity.
pub fn threshold(verbosity: u8) -> (level: Severity)
    ensures
        level.rank() == threshold_rank(verbosity as nat),
{
    match verbosity {
        0 => Severity::Warn,
        1 => Severity::Info,
        2 => Severity::Debug,
        _ => Severity::Trace,
    }
}

/// One line for the log, with its severity.
#[derive(Clone, Debug, PartialEq, Eq)]
pub struct LogLine {
    pub severity: Severity,
    pub text: String,
}

/// A `LogLine` with the contents of its text.
pub struct LogLineView {
    pub severity: Severity,
    pub text: Seq<char>,
}

impl View for LogLine {
    type V = LogLineView;

    open spec fn view(&self) -> LogLineView {
        LogLineView { severity: self.severity, text: self.text@ }
    }
}

/// The contents of each line, in order.
pub open spec fn lines_view(lines: Seq<LogLine>) -> Seq<LogLineView> {
    lines.map_values(|line: LogLine| line@)
}

/// Whether a line of this severity is shown at the given verbosity.
pub open spec fn shown_at(verbosity: nat, severity: Severity) -> bool {
    severity.rank() <= threshold_rank(verbosity)
}

/// The text that lists the sources of a run.
pub open spec fn sources_text(sources: Seq<Seq<char>>) -> Seq<char> {
    "Sources: "@ + debug_list(sources)
}

/// The text that names the destination of a run.
pub open spec fn destination_text(destination: Seq<char>) -> Seq<char> {
    "Destination: "@ + debug_form(destination)
}

/// The text that announces the copy of one source.
pub open spec fn arrow_text(source: Seq<char>, destination: Seq<char>) -> Seq<char> {
    "'"@ + source + "' -> '"@ + destination + "'"@
}

/// The text that reports a number of bytes copied.
pub open spec fn copied_text(bytes: nat) -> Seq<char> {
    "Copied "@ + decimal(bytes) + " bytes"@
}

/// The trace line that lists the sources.
pub open spec fn sources_line(sources: Seq<Seq<char>>) -> LogLineView {
    LogLineView { severity: Severity::Trace, text: sources_text(sources) }
}

/// The trace line that names the destination.
pub open spec fn destination_line(destination: Seq<char>) -> LogLineView {
    LogLineView { severity: Severity::Trace, text: destination_text(destination) }
}

/// The debug line that announces the copy of one source.
pub open spec fn arrow_line(source: Seq<char>, destination: Seq<char>) -> LogLineView {
    LogLineView { severity: Severity::Debug, text: arrow_text(source, destination) }
}

/// The trace line that reports the bytes of one copy.
pub open spec fn file_copied_line(bytes: nat) -> LogLineView {
    LogLineView { severity: Severity::Trace, text: copied_text(bytes) }
}

/// The informational line that reports the bytes of the whole run.
pub open spec fn total_line(bytes: nat) -> LogLineView {
    LogLineView { severity: Severity::Info, text: copied_text(bytes) }
}

/// The error line with the given message.
pub open spec fn error_line(message: Seq<char>) -> LogLineView {
    LogLineView { severity: Severity::Error, text: message }
}

impl Severity {
    /// Whether a line of this severity is shown at the given verbosity.
    pub fn is_shown_at(self, verbosity: u8) -> (shown: bool)
        ensures
            shown == shown_at(verbosity as nat, self),
    {
        match self {
            Severity::Error => true,
            Severity::Warn => true,
            Severity::Info => verbosity >= 1,
            Severity::Debug => verbosity >= 2,
            Severity::Trace => verbosity >= 3,
        }
    }
}

impl LogLine {
    /// The trace line that lists the sources of a run.
    pub fn sources(sources: &Vec<String>) -> (line: LogLine)
        ensures
            line@ == sources_line(texts(sources@)),
    {
        let mut text = String::from_str("Sources: ");
        push_debug_list(&mut text, sources);
        LogLine { severity: Severity::Trace, text }
    }

    /// The trace line that names the destination of a run.
    pub fn destination(destination: &str) -> (line: LogLine)
        ensures
            line@ == destination_line(destination@),
    {
        let mut text = String::from_str("Destination: ");
        push_debug(&mut text, destination);
        LogLine { severity: Severity::Trace, text }
    }

    /// The debug line that announces the copy of `source`.
    pub fn arrow(source: &str, destination: &str) -> (line: LogLine)
        ensures
            line@ == arrow_line(source@, destination@),
    {
        let mut text = String::from_str("'");
        text.append(source);
        text.append("' -> '");
        text.append(destination);
        text.append("'");
        LogLine { severity: Severity::Debug, text }
    }

    /// The trace line that reports the bytes of one copy.
    pub fn file_copied(bytes: u64) -> (line: LogLine)
        ensures
            line@ == file_copied_line(bytes as nat),
    {
        let mut text = String::from_str("Copied ");
        push_decimal(&mut text, bytes);
        text.append(" bytes");
        LogLine { severity: Severity::Trace, text }
    }

    /// The informational line that reports the bytes of the whole run.
    pub fn total(bytes: u64) -> (line: LogLine)
        ensures
            line@ == total_line(bytes as nat),
    {
        let mut text = String::from_str("Copied ");
        push_decimal(&mut text, bytes);
        text.append(" bytes");
        LogLine { severity: Severity::Info, text }
    }

    /// The error line with the given message.
    pub fn error(message: String) -> (line: LogLine)
        ensures
            line@ == error_line(message@),
    {
        LogLine { severity: Severity::Error, text: message }
    }
}

} // verus!
