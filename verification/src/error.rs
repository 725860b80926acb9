//! The ways in which an operation on the session registry can fail.

use crate::event::TerminalError;
use crate::text::{decimal, render_decimal};
use vstd::prelude::*;
use vstd::string::StringExecFns;

verus! {

/// Why an operation was refused or did not complete.
#[derive(Debug, Clone, PartialEq, Eq)]
pub enum PtyError {
    /// The registry already holds as many sessions as it may, even after idle
    /// sessions were swept.
    CapacityExceeded { max_sessions: usize },
    /// No pseudo-terminal could be opened within the allowed attempts.
    ResourceExhausted { attempts: u32, last_error: String, suggestion: String },
    /// A pseudo-terminal was opened, but the shell could not be started on it.
    SpawnFailure { message: String, suggestion: String },
    /// The identifier names no live session.
    SessionNotFound,
    /// Writing to, flushing or resizing a live session's terminal failed.
    IOError { message: String },
    /// The identifier offered for a new session already names a live one.
    IdCollision,
}

/// The result of writing to, flushing or resizing a terminal, given what the
/// system said if the operation failed.
pub fn io_outcome(failure: Option<String>) -> (r: Result<(), PtyError>)
    ensures
        match failure {
            Some(said) => r matches Err(PtyError::IOError { message }) && message@ == said@,
            None => r is Ok,
        },
{
    match failure {
        Some(said) => Err(PtyError::IOError { message: said }),
        None => Ok(()),
    }
}

impl PtyError {
    /// The error in words.
    pub open spec fn message_text(&self) -> Seq<char> {
        match self {
            PtyError::CapacityExceeded { max_sessions } => "Maximum number of sessions ("@
                + decimal(*max_sessions as nat) + ") reached"@,
            PtyError::ResourceExhausted { attempts, last_error, suggestion } => {
                "Failed to create PTY after "@ + decimal(*attempts as nat) + " attempts: "@
                    + last_error@
            },
            PtyError::SpawnFailure { message, suggestion } => message@,
            PtyError::SessionNotFound => "Session not found"@,
            PtyError::IOError { message } => message@,
            PtyError::IdCollision => "Session identifier already in use"@,
        }
    }

    /// The remedy that the error carries, if it carries one.
    pub open spec fn suggestion_text(&self) -> Option<Seq<char>> {
        match self {
            PtyError::ResourceExhausted { attempts, last_error, suggestion } => Some(suggestion@),
            PtyError::SpawnFailure { message, suggestion } => Some(suggestion@),
            _ => None,
        }
    }

    /// The error in words.
    pub fn message(&self) -> (s: String)
        ensures
            s@ == self.message_text(),
    {
        match self {
            PtyError::CapacityExceeded { max_sessions } => {
                let mut s = String::from_str("Maximum number of sessions (");
                s.append(render_decimal(*max_sessions as u64).as_str());
                s.append(") reached");
                s
            },
            PtyError::ResourceExhausted { attempts, last_error, suggestion } => {
                let mut s = String::from_str("Failed to create PTY after ");
                s.append(render_decimal(*attempts as u64).as_str());
                s.append(" attempts: ");
                s.append(last_error.as_str());
                s
            },
            PtyError::SpawnFailure { message, suggestion } => message.clone(),
            PtyError::SessionNotFound => String::from_str("Session not found"),
            PtyError::IOError { message } => message.clone(),
            PtyError::IdCollision => String::from_str("Session identifier already in use"),
        }
    }

    /// What to tell the display of the error, beside the error that the
    /// caller gets: an error that carries a remedy is reported with its
    /// message and that remedy, and no other error is reported. The report
    /// names no session, since none came to be.
    pub fn report(&self) -> (r: Option<TerminalError>)
        ensures
            match self.suggestion_text() {
                Some(remedy) => {
                    &&& r matches Some(event)
                    &&& event.id@ == Seq::<char>::empty()
                    &&& event.error@ == self.message_text()
                    &&& event.suggestion@ == remedy
                },
                None => r is None,
            },
    {
        match self.suggestion() {
            Some(remedy) => Some(
                TerminalError { id: String::new(), error: self.message(), suggestion: remedy },
            ),
            None => None,
        }
    }

    /// The remedy that the error carries, if it carries one.
    pub fn suggestion(&self) -> (r: Option<String>)
        ensures
            match r {
                Some(s) => self.suggestion_text() == Some(s@),
                None => self.suggestion_text() is None,
            },
    {
        match self {
            PtyError::ResourceExhausted { attempts, last_error, suggestion } => Some(
                suggestion.clone(),
            ),
            PtyError::SpawnFailure { message, suggestion } => Some(suggestion.clone()),
            _ => None,
        }
    }
}

} // verus!
