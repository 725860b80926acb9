//! Small replies to the user interface: a greeting, and what to show of a
//! command that was run once.

use crate::pump::{decode_lossy, utf8_lossy};
use vstd::prelude::*;
use vstd::string::StringExecFns;

verus! {

/// The greeting for `name`.
pub open spec fn greeting(name: Seq<char>) -> Seq<char> {
    "Hello, "@ + name + "! Terminal is ready."@
}

/// What to show of a command that ran: what it printed, and, if it failed,
/// what it printed as errors after that.
pub open spec fn shown_output(success: bool, stdout: Seq<u8>, stderr: Seq<u8>) -> Seq<char> {
    if success {
        utf8_lossy(stdout)
    } else {
        utf8_lossy(stdout) + utf8_lossy(stderr)
    }
}

/// What to say of a command that could not be run, given what the system
/// said.
pub open spec fn failure_notice(said: Seq<char>) -> Seq<char> {
    "Failed to execute command: "@ + said
}

/// Greets `name`.
pub fn greet(name: &str) -> (s: String)
    ensures
        s@ == greeting(name@),
{
    let mut s = String::from_str("Hello, ");
    s.append(name);
    s.append("! Terminal is ready.");
    s
}

/// What to show of a command that ran, given whether it succeeded and the
/// bytes it printed to its output and to its error stream.
pub fn command_output(success: bool, stdout: &[u8], stderr: &[u8]) -> (s: String)
    ensures
        s@ == shown_output(success, stdout@, stderr@),
{
    let mut s = decode_lossy(stdout);
    if !success {
        s.append(decode_lossy(stderr).as_str());
    }
    s
}

/// What to say of a command that could not be run.
pub fn command_failure(said: &str) -> (s: String)
    ensures
        s@ == failure_notice(said@),
{
    let mut s = String::from_str("Failed to execute command: ");
    s.append(said);
    s
}

} // verus!
