//! Reading failure messages of the operating system: which of them mean that
//! terminals have run out, and what to suggest to the user.

use crate::error::PtyError;
use crate::event::TerminalError;
use crate::text::{contains_text, mentions};
use vstd::prelude::*;
use vstd::string::StringExecFns;

verus! {

/// The message names the call that allocates a terminal.
pub open spec fn names_forkpty(message: Seq<char>) -> bool {
    contains_text(message, "forkpty"@)
}

/// The message says that a resource is used up for the moment.
pub open spec fn names_unavailable(message: Seq<char>) -> bool {
    contains_text(message, "Resource temporarily unavailable"@)
}

/// The message is one that the system gives when terminals have run out.
pub open spec fn is_resource_exhaustion(message: Seq<char>) -> bool {
    names_forkpty(message) || names_unavailable(message)
}

/// The advice to raise the system's limit on terminals.
pub open spec fn limit_hint() -> Seq<char> {
    "PTY limit reached. Try: sudo sysctl -w kern.tty.ptmx_max=768"@
}

/// The advice to free resources by closing sessions.
pub open spec fn close_hint() -> Seq<char> {
    "Close some terminal sessions or restart the application"@
}

/// The advice for a failure that names no known cause.
pub open spec fn general_hint() -> Seq<char> {
    "Check system resources and permissions"@
}

/// The remedy to suggest when a shell could not be started and the system
/// gave the message.
pub open spec fn suggestion_text(message: Seq<char>) -> Seq<char> {
    if names_forkpty(message) {
        limit_hint()
    } else if names_unavailable(message) {
        close_hint()
    } else {
        general_hint()
    }
}

/// The remedy to suggest when no terminal could be opened and the system
/// gave the message last: to raise the limit if terminals have run out, and
/// the general advice otherwise.
pub open spec fn exhaustion_suggestion_text(message: Seq<char>) -> Seq<char> {
    if is_resource_exhaustion(message) {
        limit_hint()
    } else {
        general_hint()
    }
}

/// Whether the message is one that the system gives when terminals have run
/// out.
pub fn indicates_exhaustion(message: &str) -> (b: bool)
    ensures
        b == is_resource_exhaustion(message@),
{
    mentions(message, "forkpty") || mentions(message, "Resource temporarily unavailable")
}

/// The remedy to suggest when a shell could not be started and the system
/// gave the message.
pub fn suggestion_for(message: &str) -> (s: String)
    ensures
        s@ == suggestion_text(message@),
{
    if mentions(message, "forkpty") {
        String::from_str("PTY limit reached. Try: sudo sysctl -w kern.tty.ptmx_max=768")
    } else if mentions(message, "Resource temporarily unavailable") {
        String::from_str("Close some terminal sessions or restart the application")
    } else {
        String::from_str("Check system resources and permissions")
    }
}

/// The remedy to suggest when no terminal could be opened and the system
/// gave the message last.
pub fn exhaustion_suggestion_for(message: &str) -> (s: String)
    ensures
        s@ == exhaustion_suggestion_text(message@),
{
    if indicates_exhaustion(message) {
        String::from_str("PTY limit reached. Try: sudo sysctl -w kern.tty.ptmx_max=768")
    } else {
        String::from_str("Check system resources and permissions")
    }
}

/// The shell could not be started, and the system said `message`: the error
/// for the caller, and the report for the display. The report carries no
/// identifier, since the session never got one.
pub fn spawn_failed(message: &str) -> (r: (PtyError, TerminalError))
    ensures
        r.0 matches PtyError::SpawnFailure { message: m, suggestion: s } && m@ == message@ && s@
            == suggestion_text(message@),
        r.1.id@ == Seq::<char>::empty(),
        r.1.error@ == message@,
        r.1.suggestion@ == suggestion_text(message@),
{
    let error = PtyError::SpawnFailure {
        message: String::from_str(message),
        suggestion: suggestion_for(message),
    };
    let report = TerminalError {
        id: String::new(),
        error: String::from_str(message),
        suggestion: suggestion_for(message),
    };
    (error, report)
}

} // verus!
