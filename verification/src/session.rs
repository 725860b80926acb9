//! One live shell session as the registry records it.
//!
//! Times are whole seconds read from a clock that the caller owns; the
//! registry only compares and subtracts them.

use vstd::prelude::*;

verus! {

/// Seconds without activity after which a session counts as abandoned.
pub const IDLE_TIMEOUT_SECS: u64 = 1800;

/// Seconds between two sweeps for abandoned sessions.
pub const CLEANUP_INTERVAL_SECS: u64 = 300;

/// What the registry knows of a session apart from its identifier.
pub struct SessionState<H> {
    /// The resources of the session: its terminal and what belongs to it.
    pub handle: H,
    /// When the session was registered.
    pub created_at: u64,
    /// When the session last read or wrote.
    pub last_activity: u64,
}

/// A live session: an identifier and the state recorded under it.
pub struct PtySession<H> {
    pub id: String,
    pub handle: H,
    pub created_at: u64,
    pub last_activity: u64,
}

/// The seconds from `since` to `now`; none if `now` is the earlier.
pub open spec fn elapsed(since: u64, now: u64) -> nat {
    if now >= since {
        (now - since) as nat
    } else {
        0
    }
}

/// The later of a recorded time and a new reading.
pub open spec fn later(recorded: u64, now: u64) -> u64 {
    if now > recorded {
        now
    } else {
        recorded
    }
}

/// The state of a session that was just registered at `now`.
pub open spec fn opened<H>(handle: H, now: u64) -> SessionState<H> {
    SessionState { handle, created_at: now, last_activity: now }
}

/// The state after activity at `now`: the activity time never moves back.
pub open spec fn touched<H>(s: SessionState<H>, now: u64) -> SessionState<H> {
    SessionState {
        handle: s.handle,
        created_at: s.created_at,
        last_activity: later(s.last_activity, now),
    }
}

/// The state after the handle was lent out at `now` and came back as
/// `handle`: lending counts as activity.
pub open spec fn lent<H>(s: SessionState<H>, now: u64, handle: H) -> SessionState<H> {
    SessionState { handle, created_at: s.created_at, last_activity: later(s.last_activity, now) }
}

/// A session is idle at `now` when more than `threshold` seconds passed since
/// its last activity.
pub open spec fn is_idle<H>(s: SessionState<H>, now: u64, threshold: u64) -> bool {
    elapsed(s.last_activity, now) > threshold
}

/// The sessions of `m` that are not idle at `now`.
pub open spec fn without_idle<H>(
    m: Map<Seq<char>, SessionState<H>>,
    now: u64,
    threshold: u64,
) -> Map<Seq<char>, SessionState<H>> {
    Map::new(
        |k: Seq<char>| m.contains_key(k) && !is_idle(m[k], now, threshold),
        |k: Seq<char>| m[k],
    )
}

/// Computes `elapsed`.
pub fn seconds_since(since: u64, now: u64) -> (d: u64)
    ensures
        d == elapsed(since, now),
{
    if now >= since {
        now - since
    } else {
        0
    }
}

impl<H> PtySession<H> {
    /// The state recorded for this session.
    pub open spec fn state(&self) -> SessionState<H> {
        SessionState {
            handle: self.handle,
            created_at: self.created_at,
            last_activity: self.last_activity,
        }
    }

    /// Seconds since the session was registered.
    pub fn age_seconds(&self, now: u64) -> (d: u64)
        ensures
            d == elapsed(self.created_at, now),
    {
        seconds_since(self.created_at, now)
    }

    /// Seconds since the session was last active.
    pub fn idle_seconds(&self, now: u64) -> (d: u64)
        ensures
            d == elapsed(self.last_activity, now),
    {
        seconds_since(self.last_activity, now)
    }
}

} // verus!
