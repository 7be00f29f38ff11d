//! The log relay: at which severity a message of the front end reaches
//! the logging sink. Handing it to the sink is the caller's part.

use vstd::prelude::*;
use vstd::string::StringExecFns;

verus! {

/// The severity at which a relayed message is logged.
#[derive(Clone, Copy, Debug, PartialEq, Eq, Structural)]
pub enum LogLevel {
    Info,
    Error,
    Warn,
    Debug,
    Trace,
}

/// A message on its way to the logging sink.
#[derive(Debug, PartialEq, Eq)]
pub struct LogEntry {
    pub level: LogLevel,
    pub message: String,
}

/// The lower-case form of a text, as `str::to_lowercase` gives it.
pub uninterp spec fn lowercase(text: Seq<char>) -> Seq<char>;

/// `str::to_lowercase` returns the lower-case form of the text, which
/// depends on the text alone.
pub assume_specification[ str::to_lowercase ](text: &str) -> (lower: String)
    ensures
        lower@ == lowercase(text@),
;

/// The severity that a label in lower case stands for: one of the five
/// known labels, and `Info` for anything else.
pub open spec fn level_of_label(lower: Seq<char>) -> LogLevel {
    if lower == "error"@ {
        LogLevel::Error
    } else if lower == "warn"@ {
        LogLevel::Warn
    } else if lower == "debug"@ {
        LogLevel::Debug
    } else if lower == "trace"@ {
        LogLevel::Trace
    } else {
        LogLevel::Info
    }
}

/// The severity that a label of the front end stands for, whatever its
/// case.
pub open spec fn level_of(label: Seq<char>) -> LogLevel {
    level_of_label(lowercase(label))
}

/// Two labels with the same lower-case form stand for the same severity:
/// the case of a label does not matter.
pub proof fn lemma_level_ignores_case(a: Seq<char>, b: Seq<char>)
    requires
        lowercase(a) == lowercase(b),
    ensures
        level_of(a) == level_of(b),
{
}

/// Matches a label that is in lower case already against the known
/// labels.
pub fn level_from_label(lower: &str) -> (level: LogLevel)
    ensures
        level == level_of_label(lower@),
{
    let label = String::from_str(lower);
    if label == String::from_str("error") {
        LogLevel::Error
    } else if label == String::from_str("warn") {
        LogLevel::Warn
    } else if label == String::from_str("debug") {
        LogLevel::Debug
    } else if label == String::from_str("trace") {
        LogLevel::Trace
    } else {
        LogLevel::Info
    }
}

/// Relays a message of the front end: the entry to hand to the logging
/// sink, at the severity that the label stands for.
pub fn log_message(level: &str, message: &str) -> (entry: LogEntry)
    ensures
        entry.level == level_of(level@),
        entry.message@ == message@,
{
    let lower = level.to_lowercase();
    LogEntry { level: level_from_label(lower.as_str()), message: String::from_str(message) }
}

} // verus!
