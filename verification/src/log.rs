//! Log levels and the shape of a log line.

use crate::types::LogMessage;
use vstd::prelude::*;

verus! {

/// How serious a log line is.
#[derive(Clone, Copy, Debug, PartialEq, Eq, Structural)]
pub enum LogLevel {
    Info,
    Warn,
    Error,
}

/// The tag that a log line carries for `level`.
pub open spec fn level_label(level: LogLevel) -> Seq<char> {
    match level {
        LogLevel::Info => "INFO"@,
        LogLevel::Warn => "WARN"@,
        LogLevel::Error => "ERR"@,
    }
}

/// A log line: the time in square brackets, the level in square brackets, the
/// message.
pub open spec fn log_line(timestamp: Seq<char>, level: LogLevel, msg: Seq<char>) -> Seq<char> {
    "["@ + timestamp + "] ["@ + level_label(level) + "] "@ + msg
}

/// Whether `line` is `msg` logged at `level` at some moment.
pub open spec fn is_log_line(line: Seq<char>, level: LogLevel, msg: Seq<char>) -> bool {
    exists|timestamp: Seq<char>| line == log_line(timestamp, level, msg)
}

impl LogLevel {
    /// The tag of this level: `INFO`, `WARN` or `ERR`.
    pub fn label(&self) -> (r: &'static str)
        ensures
            r@ == level_label(*self),
    {
        match self {
            LogLevel::Info => "INFO",
            LogLevel::Warn => "WARN",
            LogLevel::Error => "ERR",
        }
    }

    /// The tag of this level as an owned string.
    pub fn to_string(&self) -> (r: String)
        ensures
            r@ == level_label(*self),
    {
        String::from_str(self.label())
    }
}

/// The local time from `chrono::Local::now`, written as year-month-day
/// hour:minute:second. Nothing is claimed of the text: it changes from call to
/// call. `chrono` takes the system clock to stand at or after the start of
/// 1970 and panics where it does not; so does this call.
#[verifier::external_body]
fn local_timestamp() -> String {
    chrono::Local::now().format("%Y-%m-%d %H:%M:%S").to_string()
}

/// Formats a log line stamped with the given time.
pub fn format_log_at(timestamp: &str, level: LogLevel, msg: &str) -> (r: String)
    ensures
        r@ == log_line(timestamp@, level, msg@),
{
    let mut out = String::from_str("[");
    out.append(timestamp);
    out.append("] [");
    out.append(level.label());
    out.append("] ");
    out.append(msg);
    out
}

/// Formats a log line stamped with the current local time.
pub fn format_log(level: LogLevel, msg: &str) -> (r: String)
    ensures
        is_log_line(r@, level, msg@),
{
    let timestamp = local_timestamp();
    format_log_at(timestamp.as_str(), level, msg)
}

/// A line of the shared log that tells of an error: the time in square
/// brackets, the word `Error`, what went wrong, and a line break.
pub open spec fn error_line(timestamp: Seq<char>, err: Seq<char>) -> Seq<char> {
    "["@ + timestamp + "] Error: "@ + err + "\n"@
}

/// Formats an error for the shared log, stamped with the given time.
pub fn format_error_at(timestamp: &str, err: &str) -> (r: String)
    ensures
        r@ == error_line(timestamp@, err@),
{
    let mut out = String::from_str("[");
    out.append(timestamp);
    out.append("] Error: ");
    out.append(err);
    out.append("\n");
    out
}

/// Formats an error for the shared log, stamped with the current local time.
pub fn format_error(err: &str) -> (r: String)
    ensures
        exists|timestamp: Seq<char>| r@ == error_line(timestamp, err@),
{
    let timestamp = local_timestamp();
    format_error_at(timestamp.as_str(), err)
}

/// The log line for `msg` at `level`, stamped with the current local time and
/// addressed to the window `window_id`.
pub fn log_message<S>(level: LogLevel, window_id: S, msg: &str) -> (r: LogMessage<S>)
    ensures
        r.window_id == window_id,
        is_log_line(r.content@, level, msg@),
{
    LogMessage { window_id, content: format_log(level, msg) }
}

} // verus!
