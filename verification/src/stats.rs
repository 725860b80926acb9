//! A snapshot of the registry for whoever watches it.

use crate::session::{elapsed, SessionState};
use vstd::prelude::*;

verus! {

/// One live session as the snapshot shows it.
#[derive(Debug, Clone, PartialEq, Eq)]
pub struct SessionStats {
    pub id: String,
    /// Seconds since the session was registered.
    pub age_seconds: u64,
    /// Seconds since the session was last active.
    pub idle_seconds: u64,
}

/// The registry at one moment, with two facts about the host.
#[derive(Debug, Clone, PartialEq, Eq)]
pub struct ManagerStats {
    pub active_sessions: usize,
    pub max_sessions: usize,
    pub sessions: Vec<SessionStats>,
    /// The operating system of the host.
    pub platform: String,
    /// The shell that a new session would run.
    pub shell: String,
}

/// The identifiers that the lines of a snapshot show, in their order.
pub open spec fn listed_ids(lines: Seq<SessionStats>) -> Seq<Seq<char>> {
    Seq::new(lines.len(), |i: int| lines[i].id@)
}

/// The line shows a session of `m`, with its age and idle time at `now`.
pub open spec fn describes<H>(
    line: SessionStats,
    m: Map<Seq<char>, SessionState<H>>,
    now: u64,
) -> bool {
    &&& m.contains_key(line.id@)
    &&& line.age_seconds == elapsed(m[line.id@].created_at, now)
    &&& line.idle_seconds == elapsed(m[line.id@].last_activity, now)
}

/// The snapshot shows the sessions `m` of a registry with the limit
/// `max_sessions` at `now`: their number, and each of them once, in one line.
pub open spec fn snapshot_of<H>(
    stats: ManagerStats,
    m: Map<Seq<char>, SessionState<H>>,
    max_sessions: usize,
    now: u64,
) -> bool {
    &&& stats.active_sessions == m.len()
    &&& stats.max_sessions == max_sessions
    &&& stats.sessions@.len() == m.len()
    &&& listed_ids(stats.sessions@).no_duplicates()
    &&& forall|k: Seq<char>| m.contains_key(k) <==> listed_ids(stats.sessions@).contains(k)
    &&& forall|i: int|
        0 <= i < stats.sessions@.len() ==> describes(#[trigger] stats.sessions@[i], m, now)
    &&& forall|i: int|
        0 <= i < stats.sessions@.len() ==> (#[trigger] stats.sessions@[i]).idle_seconds
            <= stats.sessions@[i].age_seconds
}

} // verus!
