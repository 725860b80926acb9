//! What the registry reports to whoever displays the terminals.

use vstd::prelude::*;

verus! {

/// A piece of what a session's terminal printed.
#[derive(Debug, Clone, PartialEq, Eq)]
pub struct TerminalOutput {
    /// The session that printed it.
    pub id: String,
    /// The text, with undecodable bytes replaced.
    pub data: String,
}

/// A failure that concerns a session, reported beside the error that the
/// caller of the failed operation gets.
#[derive(Debug, Clone, PartialEq, Eq)]
pub struct TerminalError {
    /// The session concerned; empty while the session has no identifier yet.
    pub id: String,
    /// What went wrong, as the operating system put it.
    pub error: String,
    /// What the user can do about it.
    pub suggestion: String,
}

/// The name under which output is reported.
pub fn output_event_name() -> (name: &'static str)
    ensures
        name@ == "terminal-output"@,
{
    "terminal-output"
}

/// The name under which failures are reported.
pub fn error_event_name() -> (name: &'static str)
    ensures
        name@ == "terminal-error"@,
{
    "terminal-error"
}

} // verus!
