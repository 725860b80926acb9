//! The session registry: the one place where sessions are published, looked
//! up, swept and closed.
//!
//! The registry does no input or output. Each session carries a handle of a
//! type `H` that the caller chooses; the registry stores it, lends it out for
//! writing and resizing, and drops it when the session goes.

use crate::error::PtyError;
use crate::factory::{started, PtyFactory, TerminalSize};
use crate::ids::{fresh_session_id, is_session_id};
use crate::pump::{asks_to_stop, bytes_read, read_step, utf8_lossy, PumpStep};
use crate::session::{
    elapsed, is_idle, lent, opened, touched, without_idle, PtySession, SessionState, IDLE_TIMEOUT_SECS,
};
use crate::shell::{default_shell, named_shell, shell_text};
use crate::stats::{describes, listed_ids, snapshot_of, ManagerStats, SessionStats};
use crate::table::{lemma_keyed_len, lemma_keyed_position, IdTable};
use vstd::prelude::*;
use vstd::string::StringExecFns;

verus! {

/// How many sessions a registry admits unless told otherwise.
pub const DEFAULT_MAX_SESSIONS: usize = 10;

/// How often opening a terminal is tried unless told otherwise.
pub const DEFAULT_RETRY_ATTEMPTS: u32 = 3;

/// The states recorded under the identifiers of a table of sessions.
pub open spec fn states<H>(m: Map<Seq<char>, PtySession<H>>) -> Map<Seq<char>, SessionState<H>> {
    m.map_values(|s: PtySession<H>| s.state())
}

/// The sessions left when room is made for one more: if `m` is full, its idle
/// sessions are swept first; otherwise nothing changes.
pub open spec fn swept_if_full<H>(
    m: Map<Seq<char>, SessionState<H>>,
    max_sessions: usize,
    now: u64,
) -> Map<Seq<char>, SessionState<H>> {
    if m.len() >= max_sessions {
        without_idle(m, now, IDLE_TIMEOUT_SECS)
    } else {
        m
    }
}

/// Whether a registry holding `m` has room for one more session.
pub open spec fn has_room<H>(m: Map<Seq<char>, SessionState<H>>, max_sessions: usize) -> bool {
    m.len() < max_sessions
}

/// Whether a session offered under `id` at `now` is registered: after the
/// sweep that a full registry makes, there is room and `id` names no live
/// session.
pub open spec fn registers<H>(
    m: Map<Seq<char>, SessionState<H>>,
    max_sessions: usize,
    id: Seq<char>,
    now: u64,
) -> bool {
    let swept = swept_if_full(m, max_sessions, now);
    has_room(swept, max_sessions) && !swept.contains_key(id)
}

/// Why a session offered under `id` at `now` is refused, if it is: for want
/// of room first, and else because `id` is taken.
pub open spec fn refusal<H>(
    m: Map<Seq<char>, SessionState<H>>,
    max_sessions: usize,
    id: Seq<char>,
    now: u64,
) -> PtyError {
    if has_room(swept_if_full(m, max_sessions, now), max_sessions) {
        PtyError::IdCollision
    } else {
        PtyError::CapacityExceeded { max_sessions }
    }
}

/// The sessions after a session was offered under `id` at `now`: swept if the
/// registry was full, and with the new session if it was registered.
pub open spec fn after_register<H>(
    m: Map<Seq<char>, SessionState<H>>,
    max_sessions: usize,
    id: Seq<char>,
    handle: H,
    now: u64,
) -> Map<Seq<char>, SessionState<H>> {
    let swept = swept_if_full(m, max_sessions, now);
    if registers(m, max_sessions, id, now) {
        swept.insert(id, opened(handle, now))
    } else {
        swept
    }
}

/// No session of `m` was active before it was registered.
pub open spec fn activity_follows_creation<H>(m: Map<Seq<char>, SessionState<H>>) -> bool {
    forall|k: Seq<char>| #[trigger] m.contains_key(k) ==> m[k].created_at <= m[k].last_activity
}

/// Some session of `m` goes by an identifier of the shape that is drawn for
/// new sessions.
pub open spec fn holds_drawn_id<H>(m: Map<Seq<char>, SessionState<H>>) -> bool {
    exists|k: Seq<char>| is_session_id(k) && #[trigger] m.contains_key(k)
}

/// What closing the session `id` of `m` reports.
pub open spec fn close_outcome<H>(m: Map<Seq<char>, SessionState<H>>, id: Seq<char>) -> Result<
    (),
    PtyError,
> {
    if m.contains_key(id) {
        Ok(())
    } else {
        Err(PtyError::SessionNotFound)
    }
}

/// The sessions left after closing the session `id` of `m`.
pub open spec fn after_close<H>(m: Map<Seq<char>, SessionState<H>>, id: Seq<char>) -> Map<
    Seq<char>,
    SessionState<H>,
> {
    m.remove(id)
}

/// The sessions after activity of the session `id` at `now`: a live session
/// is touched, and nothing else changes.
pub open spec fn after_activity<H>(
    m: Map<Seq<char>, SessionState<H>>,
    id: Seq<char>,
    now: u64,
) -> Map<Seq<char>, SessionState<H>> {
    if m.contains_key(id) {
        m.insert(id, touched(m[id], now))
    } else {
        m
    }
}

/// The registry of live sessions.
pub struct PtyManager<H> {
    sessions: IdTable<PtySession<H>>,
    max_sessions: usize,
    retry_attempts: u32,
}

impl<H> View for PtyManager<H> {
    type V = Map<Seq<char>, SessionState<H>>;

    closed spec fn view(&self) -> Map<Seq<char>, SessionState<H>> {
        states(self.sessions@)
    }
}

impl<H> PtyManager<H> {
    /// The most sessions that may be live at once.
    pub closed spec fn limit(&self) -> usize {
        self.max_sessions
    }

    /// How often opening a terminal is tried for one session.
    pub closed spec fn retries(&self) -> u32 {
        self.retry_attempts
    }

    /// Each session is recorded under its own identifier, no identifier is
    /// recorded twice, the registry is not over its limit, and no session
    /// was active before it was registered.
    pub closed spec fn wf(&self) -> bool {
        &&& self.sessions.wf()
        &&& self.sessions.keys().len() <= self.max_sessions
        &&& forall|k: Seq<char>| #[trigger]
            self.sessions@.contains_key(k) ==> self.sessions@[k].id@ == k
                && self.sessions@[k].created_at <= self.sessions@[k].last_activity
    }

    /// In a registry no session was active before it was registered, so no
    /// session has been idle for longer than it exists.
    pub proof fn law_activity_follows_creation(&self)
        requires
            self.wf(),
        ensures
            activity_follows_creation(self@),
            forall|k: Seq<char>, now: u64| #[trigger]
                self@.contains_key(k) ==> #[trigger] elapsed(self@[k].last_activity, now)
                    <= elapsed(self@[k].created_at, now),
    {
    }

    /// A registry holds finitely many sessions, and never more than its
    /// limit.
    pub proof fn law_within_limit(&self)
        requires
            self.wf(),
        ensures
            self@.dom().finite(),
            self@.len() <= self.limit(),
    {
        self.lemma_len();
    }

    proof fn lemma_len(&self)
        requires
            self.sessions.wf(),
        ensures
            self@.dom().finite(),
            self@.len() == self.sessions.keys().len(),
            self@.dom() == self.sessions@.dom(),
    {
        lemma_keyed_len(self.sessions.keys(), self.sessions.values());
        assert(self@.dom() =~= self.sessions@.dom());
    }

    /// An empty registry for at most ten sessions, with three attempts at
    /// opening a terminal.
    pub fn new() -> (m: Self)
        ensures
            m.wf(),
            m@ == Map::<Seq<char>, SessionState<H>>::empty(),
            m.limit() == DEFAULT_MAX_SESSIONS,
            m.retries() == DEFAULT_RETRY_ATTEMPTS,
    {
        Self::with_limits(DEFAULT_MAX_SESSIONS, DEFAULT_RETRY_ATTEMPTS)
    }

    /// An empty registry with the given limits.
    pub fn with_limits(max_sessions: usize, retry_attempts: u32) -> (m: Self)
        ensures
            m.wf(),
            m@ == Map::<Seq<char>, SessionState<H>>::empty(),
            m.limit() == max_sessions,
            m.retries() == retry_attempts,
    {
        let m = PtyManager { sessions: IdTable::new(), max_sessions, retry_attempts };
        assert(m@ =~= Map::<Seq<char>, SessionState<H>>::empty());
        m
    }

    /// The most sessions that may be live at once.
    pub fn max_sessions(&self) -> (n: usize)
        ensures
            n == self.limit(),
    {
        self.max_sessions
    }

    /// How often opening a terminal is tried for one session.
    pub fn retry_attempts(&self) -> (n: u32)
        ensures
            n == self.retries(),
    {
        self.retry_attempts
    }

    /// A factory for the terminal of one new session, with as many attempts
    /// as this registry allows.
    pub fn pty_factory(&self) -> (factory: PtyFactory)
        ensures
            factory@ == started(self.retries()),
    {
        PtyFactory::new(self.retry_attempts)
    }

    /// The number of live sessions.
    pub fn active_sessions(&self) -> (n: usize)
        requires
            self.wf(),
        ensures
            n == self@.len(),
            n <= self.limit(),
    {
        proof {
            self.lemma_len();
        }
        self.sessions.len()
    }

    /// Whether `session_id` names a live session.
    pub fn contains(&self, session_id: &str) -> (b: bool)
        requires
            self.wf(),
        ensures
            b == self@.contains_key(session_id@),
    {
        self.sessions.contains_key(session_id)
    }

    /// The session that `session_id` names.
    pub fn session(&self, session_id: &str) -> (r: Option<&PtySession<H>>)
        requires
            self.wf(),
        ensures
            match r {
                Some(s) => self@.contains_key(session_id@) && s.state() == self@[session_id@]
                    && s.id@ == session_id@,
                None => !self@.contains_key(session_id@),
            },
    {
        self.sessions.get(session_id)
    }

    /// Removes every session that has been idle for more than
    /// `idle_duration` seconds at `now`, and keeps all others as they are.
    pub fn cleanup_idle_sessions(&mut self, idle_duration: u64, now: u64)
        requires
            old(self).wf(),
        ensures
            final(self).wf(),
            final(self).limit() == old(self).limit(),
            final(self).retries() == old(self).retries(),
            final(self)@ == without_idle(old(self)@, now, idle_duration),
    {
        let mut i: usize = 0;
        while i < self.sessions.len()
            invariant
                self.wf(),
                self.max_sessions == old(self).max_sessions,
                self.retry_attempts == old(self).retry_attempts,
                i <= self.sessions.keys().len(),
                forall|j: int|
                    0 <= j < i ==> !is_idle(
                        (#[trigger] self.sessions.values()[j]).state(),
                        now,
                        idle_duration,
                    ),
                forall|k: Seq<char>| #[trigger]
                    self.sessions@.contains_key(k) ==> old(self).sessions@.contains_key(k)
                        && self.sessions@[k] == old(self).sessions@[k],
                forall|k: Seq<char>|
                    old(self).sessions@.contains_key(k) && !(#[trigger] self.sessions@.contains_key(
                        k,
                    )) ==> is_idle(old(self).sessions@[k].state(), now, idle_duration),
            decreases self.sessions.keys().len() - i,
        {
            let idle = self.sessions.value_at(i).idle_seconds(now) > idle_duration;
            if idle {
                let ghost before = self.sessions;
                let _ = self.sessions.remove_at(i);
                proof {
                    assert forall|j: int| 0 <= j < i implies !is_idle(
                        (#[trigger] self.sessions.values()[j]).state(),
                        now,
                        idle_duration,
                    ) by {
                        assert(self.sessions.values()[j] == before.values()[j]);
                    }
                }
            } else {
                i += 1;
            }
        }
        proof {
            let cur = self.sessions;
            assert forall|k: Seq<char>| cur@.contains_key(k) implies !is_idle(
                #[trigger] cur@[k].state(),
                now,
                idle_duration,
            ) by {
                lemma_keyed_position(cur.keys(), cur.values(), k);
                let j = cur.keys().index_of(k);
                assert(!is_idle(cur.values()[j].state(), now, idle_duration));
            }
            assert(self@ =~= without_idle(old(self)@, now, idle_duration));
        }
    }

    /// Makes room for one more session if it can: a full registry sweeps its
    /// sessions that have been idle for more than half an hour. Says whether
    /// there is room afterwards.
    pub fn make_room(&mut self, now: u64) -> (r: Result<(), PtyError>)
        requires
            old(self).wf(),
        ensures
            final(self).wf(),
            final(self).limit() == old(self).limit(),
            final(self).retries() == old(self).retries(),
            final(self)@ == swept_if_full(old(self)@, old(self).limit(), now),
            has_room(final(self)@, final(self).limit()) ==> r is Ok,
            !has_room(final(self)@, final(self).limit()) ==> r == Err::<(), PtyError>(
                PtyError::CapacityExceeded { max_sessions: final(self).limit() },
            ),
    {
        if self.active_sessions() >= self.max_sessions {
            self.cleanup_idle_sessions(IDLE_TIMEOUT_SECS, now);
            if self.active_sessions() >= self.max_sessions {
                return Err(PtyError::CapacityExceeded { max_sessions: self.max_sessions });
            }
        }
        Ok(())
    }

    /// Registers a session under the identifier `id`, with `handle` for its
    /// resources, at `now`.
    ///
    /// A full registry first sweeps its idle sessions. The session is
    /// registered if there is room then and `id` names no live session; the
    /// identifier is handed back. Otherwise the handle is dropped and the
    /// error says which of the two was in the way.
    pub fn register_session(&mut self, id: String, handle: H, now: u64) -> (r: Result<
        String,
        PtyError,
    >)
        requires
            old(self).wf(),
        ensures
            final(self).wf(),
            final(self).limit() == old(self).limit(),
            final(self).retries() == old(self).retries(),
            final(self)@ == after_register(old(self)@, old(self).limit(), id@, handle, now),
            match r {
                Ok(given) => registers(old(self)@, old(self).limit(), id@, now) && given@ == id@,
                Err(e) => !registers(old(self)@, old(self).limit(), id@, now) && e == refusal(
                    old(self)@,
                    old(self).limit(),
                    id@,
                    now,
                ),
            },
    {
        match self.make_room(now) {
            Err(e) => {
                return Err(e);
            },
            Ok(_) => {},
        }
        if self.sessions.contains_key(id.as_str()) {
            return Err(PtyError::IdCollision);
        }
        let given = id.clone();
        let session = PtySession { id, handle, created_at: now, last_activity: now };
        let ghost before = self.sessions;
        proof {
            self.lemma_len();
        }
        let _ = self.sessions.insert(given.clone(), session);
        assert(self@ =~= states(before@).insert(id@, opened(handle, now)));
        Ok(given)
    }

    /// Registers a session under a newly drawn identifier.
    ///
    /// A full registry first sweeps its idle sessions. If it is still full,
    /// the result is `CapacityExceeded`. Otherwise the session is registered
    /// under an identifier that named no live session, unless the identifier
    /// drawn happens to name one: then nothing is registered and the result is
    /// `IdCollision`. That can only happen while some live session goes by an
    /// identifier of the drawn shape; a registry without one always
    /// registers.
    pub fn create_session(&mut self, handle: H, now: u64) -> (r: Result<String, PtyError>)
        requires
            old(self).wf(),
        ensures
            final(self).wf(),
            final(self).limit() == old(self).limit(),
            final(self).retries() == old(self).retries(),
            match r {
                Ok(id) => {
                    &&& is_session_id(id@)
                    &&& registers(old(self)@, old(self).limit(), id@, now)
                    &&& final(self)@ == after_register(
                        old(self)@,
                        old(self).limit(),
                        id@,
                        handle,
                        now,
                    )
                },
                Err(e) => {
                    &&& final(self)@ == swept_if_full(old(self)@, old(self).limit(), now)
                    &&& has_room(final(self)@, old(self).limit()) ==> e == PtyError::IdCollision
                        && holds_drawn_id(final(self)@)
                    &&& !has_room(final(self)@, old(self).limit()) ==> e == (
                    PtyError::CapacityExceeded { max_sessions: old(self).limit() })
                },
            },
    {
        let id = fresh_session_id();
        let ghost drawn = id@;
        let r = self.register_session(id, handle, now);
        proof {
            if r is Err && has_room(self@, old(self).limit()) {
                assert(is_session_id(drawn) && self@.contains_key(drawn));
            }
        }
        r
    }

    /// Looks up the session to write to and notes the activity.
    ///
    /// For a live session the handle is lent out, so that the caller can
    /// write and flush, and the activity time becomes the later of its old
    /// value and `now`. For any other identifier nothing changes.
    pub fn write_to_session(&mut self, session_id: &str, now: u64) -> (r: Result<&mut H, PtyError>)
        requires
            old(self).wf(),
        ensures
            final(self).wf(),
            final(self).limit() == old(self).limit(),
            final(self).retries() == old(self).retries(),
            match r {
                Ok(h) => {
                    &&& old(self)@.contains_key(session_id@)
                    &&& *h == old(self)@[session_id@].handle
                    &&& final(self)@ == old(self)@.insert(
                        session_id@,
                        lent(old(self)@[session_id@], now, *final(h)),
                    )
                },
                Err(e) => {
                    &&& !old(self)@.contains_key(session_id@)
                    &&& e == PtyError::SessionNotFound
                    &&& final(self)@ == old(self)@
                },
            },
    {
        self.lend(session_id, now)
    }

    /// Removes the session that `session_id` names and drops its handle.
    pub fn close_session(&mut self, session_id: &str) -> (r: Result<(), PtyError>)
        requires
            old(self).wf(),
        ensures
            final(self).wf(),
            final(self).limit() == old(self).limit(),
            final(self).retries() == old(self).retries(),
            final(self)@ == after_close(old(self)@, session_id@),
            r == close_outcome(old(self)@, session_id@),
    {
        let removed = self.sessions.remove(session_id);
        assert(self@ =~= old(self)@.remove(session_id@));
        match removed {
            Some(_) => Ok(()),
            None => Err(PtyError::SessionNotFound),
        }
    }

    /// Notes activity of the session that `session_id` names, if it is live,
    /// and says whether it is.
    pub fn record_activity(&mut self, session_id: &str, now: u64) -> (live: bool)
        requires
            old(self).wf(),
        ensures
            final(self).wf(),
            final(self).limit() == old(self).limit(),
            final(self).retries() == old(self).retries(),
            live == old(self)@.contains_key(session_id@),
            final(self)@ == after_activity(old(self)@, session_id@, now),
    {
        match self.lend(session_id, now) {
            Ok(_) => true,
            Err(_) => false,
        }
    }

    /// Looks up the session to resize and notes the activity.
    ///
    /// For a live session the handle is lent out together with the size to
    /// set, which has the given rows and columns and leaves the pixel
    /// dimensions open; the activity time becomes the later of its old value
    /// and `now`. For any other identifier nothing changes.
    pub fn resize_session(&mut self, session_id: &str, rows: u16, cols: u16, now: u64) -> (r:
        Result<(&mut H, TerminalSize), PtyError>)
        requires
            old(self).wf(),
        ensures
            final(self).wf(),
            final(self).limit() == old(self).limit(),
            final(self).retries() == old(self).retries(),
            match r {
                Ok(loan) => {
                    &&& old(self)@.contains_key(session_id@)
                    &&& *loan.0 == old(self)@[session_id@].handle
                    &&& loan.1 == TerminalSize::of_cells(rows, cols)
                    &&& final(self)@ == old(self)@.insert(
                        session_id@,
                        lent(old(self)@[session_id@], now, *final(loan.0)),
                    )
                },
                Err(e) => {
                    &&& !old(self)@.contains_key(session_id@)
                    &&& e == PtyError::SessionNotFound
                    &&& final(self)@ == old(self)@
                },
            },
    {
        match self.lend(session_id, now) {
            Ok(handle) => Ok((handle, TerminalSize::new(rows, cols))),
            Err(e) => Err(e),
        }
    }

    /// Decides what the reader of the session `session_id` does after a
    /// read. `read` holds the bytes that were read, or nothing if reading
    /// failed; no bytes mean that the terminal is closed.
    ///
    /// Bytes are reported as text, and count as activity of the session if it
    /// is still live. A closed or broken terminal ends the reader, and the
    /// session is removed.
    pub fn pump_step(&mut self, session_id: &str, read: Option<&[u8]>, now: u64) -> (step:
        PumpStep)
        requires
            old(self).wf(),
        ensures
            final(self).wf(),
            final(self).limit() == old(self).limit(),
            final(self).retries() == old(self).retries(),
            step == PumpStep::Stop <==> asks_to_stop(bytes_read(read)),
            asks_to_stop(bytes_read(read)) ==> final(self)@ == after_close(
                old(self)@,
                session_id@,
            ),
            !asks_to_stop(bytes_read(read)) ==> {
                &&& step matches PumpStep::Emit(out)
                &&& out.id@ == session_id@
                &&& out.data@ == utf8_lossy(read->0@)
                &&& final(self)@ == after_activity(old(self)@, session_id@, now)
            },
    {
        let step = read_step(session_id, read);
        match step {
            PumpStep::Emit(_) => {
                let _ = self.record_activity(session_id, now);
            },
            PumpStep::Stop => {
                let _ = self.close_session(session_id);
            },
        }
        step
    }

    /// A snapshot of the registry at `now`. The facts about the host are the
    /// caller's to find out: the name of its operating system, whether that
    /// is Windows, and what its shell variable holds, if it is set. The shell
    /// shown is the one that a new session would run.
    pub fn get_stats(
        &self,
        now: u64,
        platform: &str,
        windows: bool,
        shell_var: Option<&str>,
    ) -> (stats: ManagerStats)
        requires
            self.wf(),
        ensures
            snapshot_of(stats, self@, self.limit(), now),
            stats.platform@ == platform@,
            stats.shell@ == shell_text(windows, named_shell(shell_var)),
    {
        let n = self.sessions.len();
        let mut lines: Vec<SessionStats> = Vec::new();
        let mut i: usize = 0;
        while i < n
            invariant
                self.wf(),
                n == self.sessions.keys().len(),
                i <= n,
                lines@.len() == i,
                forall|j: int|
                    0 <= j < i ==> (#[trigger] lines@[j]).id@ == self.sessions.keys()[j]
                        && describes(lines@[j], self@, now) && lines@[j].idle_seconds
                        <= lines@[j].age_seconds,
            decreases n - i,
        {
            let session = self.sessions.value_at(i);
            lines.push(
                SessionStats {
                    id: self.sessions.key_at(i).clone(),
                    age_seconds: session.age_seconds(now),
                    idle_seconds: session.idle_seconds(now),
                },
            );
            i += 1;
        }
        proof {
            self.lemma_len();
            assert(listed_ids(lines@) =~= self.sessions.keys());
        }
        ManagerStats {
            active_sessions: n,
            max_sessions: self.max_sessions,
            sessions: lines,
            platform: String::from_str(platform),
            shell: default_shell(windows, shell_var),
        }
    }

    fn lend(&mut self, session_id: &str, now: u64) -> (r: Result<&mut H, PtyError>)
        requires
            old(self).wf(),
        ensures
            final(self).wf(),
            final(self).limit() == old(self).limit(),
            final(self).retries() == old(self).retries(),
            match r {
                Ok(h) => {
                    &&& old(self)@.contains_key(session_id@)
                    &&& *h == old(self)@[session_id@].handle
                    &&& final(self)@ == old(self)@.insert(
                        session_id@,
                        lent(old(self)@[session_id@], now, *final(h)),
                    )
                },
                Err(e) => {
                    &&& !old(self)@.contains_key(session_id@)
                    &&& e == PtyError::SessionNotFound
                    &&& final(self)@ == old(self)@
                },
            },
    {
        match self.sessions.get_mut(session_id) {
            Some(session) => {
                if now > session.last_activity {
                    session.last_activity = now;
                }
                Ok(&mut session.handle)
            },
            None => Err(PtyError::SessionNotFound),
        }
    }
}

} // verus!


