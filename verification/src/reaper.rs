//! The sweep that runs from time to time and removes abandoned sessions.

use crate::pty::PtyManager;
use crate::session::{without_idle, CLEANUP_INTERVAL_SECS, IDLE_TIMEOUT_SECS};
use vstd::prelude::*;

verus! {

/// How often to sweep, and how long a session may stay idle.
#[derive(Clone, Copy, Debug, PartialEq, Eq, Structural)]
pub struct IdleReaper {
    /// Seconds to wait between two sweeps.
    pub interval_secs: u64,
    /// Seconds of idleness beyond which a session is removed.
    pub threshold_secs: u64,
}

impl IdleReaper {
    /// A reaper that sweeps every five minutes and removes sessions that
    /// have been idle for more than half an hour.
    pub fn new() -> (reaper: Self)
        ensures
            reaper.interval_secs == CLEANUP_INTERVAL_SECS,
            reaper.threshold_secs == IDLE_TIMEOUT_SECS,
    {
        IdleReaper { interval_secs: CLEANUP_INTERVAL_SECS, threshold_secs: IDLE_TIMEOUT_SECS }
    }

    /// One sweep at `now`: every session of `manager` that has been idle for
    /// more than the threshold is removed, and all others stay as they are.
    /// Hands back the seconds to wait before the next sweep.
    pub fn sweep<H>(&self, manager: &mut PtyManager<H>, now: u64) -> (wait_secs: u64)
        requires
            old(manager).wf(),
        ensures
            final(manager).wf(),
            final(manager).limit() == old(manager).limit(),
            final(manager).retries() == old(manager).retries(),
            final(manager)@ == without_idle(old(manager)@, now, self.threshold_secs),
            wait_secs == self.interval_secs,
    {
        manager.cleanup_idle_sessions(self.threshold_secs, now);
        self.interval_secs
    }
}

} // verus!
