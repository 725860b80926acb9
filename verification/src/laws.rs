//! What holds of the registry whatever the sessions are and whatever the
//! clock says, stated over the values that the contracts of the registry
//! speak of.

use crate::error::PtyError;
use crate::pty::{
    after_activity, after_close, after_register, close_outcome, has_room, holds_drawn_id,
    refusal, registers, swept_if_full,
};
use crate::session::{elapsed, is_idle, opened, without_idle, SessionState, IDLE_TIMEOUT_SECS};
use crate::stats::{listed_ids, snapshot_of, ManagerStats};
use vstd::prelude::*;

verus! {

/// While the registry holds fewer sessions than it may, a session offered
/// under an identifier that names no live one is registered, under that
/// identifier, and every other session stays as it was.
pub proof fn law_room_means_success<H>(
    m: Map<Seq<char>, SessionState<H>>,
    max_sessions: usize,
    id: Seq<char>,
    handle: H,
    now: u64,
)
    requires
        m.len() < max_sessions,
        !m.contains_key(id),
    ensures
        registers(m, max_sessions, id, now),
        after_register(m, max_sessions, id, handle, now) == m.insert(id, opened(handle, now)),
        after_register(m, max_sessions, id, handle, now).remove(id) == m,
{
    assert(m.insert(id, opened(handle, now)).remove(id) =~= m);
}

/// An identifier under which a session is registered named no live session
/// at that moment, and names exactly the new session afterwards.
pub proof fn law_registered_id_was_free<H>(
    m: Map<Seq<char>, SessionState<H>>,
    max_sessions: usize,
    id: Seq<char>,
    handle: H,
    now: u64,
)
    requires
        registers(m, max_sessions, id, now),
    ensures
        !swept_if_full(m, max_sessions, now).contains_key(id),
        m.len() < max_sessions ==> !m.contains_key(id),
        after_register(m, max_sessions, id, handle, now).contains_key(id),
        after_register(m, max_sessions, id, handle, now)[id] == opened(handle, now),
        after_register(m, max_sessions, id, handle, now).remove(id) == swept_if_full(
            m,
            max_sessions,
            now,
        ),
{
    let swept = swept_if_full(m, max_sessions, now);
    assert(swept.insert(id, opened(handle, now)).remove(id) =~= swept);
}

/// An identifier can only be taken while sessions are live: a registry
/// without sessions holds none of the shape that is drawn, and neither does
/// one that a sweep has emptied.
pub proof fn law_no_collision_without_sessions<H>(m: Map<Seq<char>, SessionState<H>>)
    requires
        m.dom().finite(),
        m.len() == 0,
    ensures
        !holds_drawn_id(m),
        !holds_drawn_id(Map::<Seq<char>, SessionState<H>>::empty()),
{
    assert forall|k: Seq<char>| !m.contains_key(k) by {
        if m.contains_key(k) {
            assert(m.dom().contains(k));
            assert(m.dom().len() != 0);
        }
    }
}

/// A full registry in which no session is idle refuses a new session with
/// `CapacityExceeded`, and stays as it was.
pub proof fn law_full_means_refusal<H>(
    m: Map<Seq<char>, SessionState<H>>,
    max_sessions: usize,
    id: Seq<char>,
    handle: H,
    now: u64,
)
    requires
        m.len() >= max_sessions,
        forall|k: Seq<char>| m.contains_key(k) ==> !is_idle(m[k], now, IDLE_TIMEOUT_SECS),
    ensures
        !registers(m, max_sessions, id, now),
        refusal(m, max_sessions, id, now) == (PtyError::CapacityExceeded { max_sessions }),
        after_register(m, max_sessions, id, handle, now) == m,
{
    assert(without_idle(m, now, IDLE_TIMEOUT_SECS) =~= m);
}

/// A full registry that holds an idle session sweeps it and then has room: a
/// session offered under an identifier that names no session left is
/// registered.
pub proof fn law_sweep_makes_room<H>(
    m: Map<Seq<char>, SessionState<H>>,
    max_sessions: usize,
    stale: Seq<char>,
    id: Seq<char>,
    now: u64,
)
    requires
        m.dom().finite(),
        m.len() == max_sessions,
        m.contains_key(stale),
        is_idle(m[stale], now, IDLE_TIMEOUT_SECS),
        !without_idle(m, now, IDLE_TIMEOUT_SECS).contains_key(id),
    ensures
        has_room(swept_if_full(m, max_sessions, now), max_sessions),
        !swept_if_full(m, max_sessions, now).contains_key(stale),
        registers(m, max_sessions, id, now),
{
    let kept = without_idle(m, now, IDLE_TIMEOUT_SECS);
    assert(kept.dom().subset_of(m.dom().remove(stale)));
    vstd::set_lib::lemma_len_subset(kept.dom(), m.dom().remove(stale));
}

/// Closing a live session succeeds and removes it; closing it again fails
/// with `SessionNotFound` and changes nothing.
pub proof fn law_close_once<H>(m: Map<Seq<char>, SessionState<H>>, id: Seq<char>)
    requires
        m.contains_key(id),
    ensures
        close_outcome(m, id) == Ok::<(), PtyError>(()),
        !after_close(m, id).contains_key(id),
        close_outcome(after_close(m, id), id) == Err::<(), PtyError>(PtyError::SessionNotFound),
        after_close(after_close(m, id), id) == after_close(m, id),
{
    assert(after_close(after_close(m, id), id) =~= after_close(m, id));
}

/// A snapshot taken after a session was closed does not list it.
pub proof fn law_closed_session_is_not_listed<H>(
    m: Map<Seq<char>, SessionState<H>>,
    id: Seq<char>,
    stats: ManagerStats,
    max_sessions: usize,
    now: u64,
)
    requires
        snapshot_of(stats, after_close(m, id), max_sessions, now),
    ensures
        !listed_ids(stats.sessions@).contains(id),
        forall|i: int| 0 <= i < stats.sessions@.len() ==> stats.sessions@[i].id@ != id,
{
    assert forall|i: int| 0 <= i < stats.sessions@.len() implies stats.sessions@[i].id@ != id by {
        assert(listed_ids(stats.sessions@)[i] == stats.sessions@[i].id@);
    }
}

/// Closing under an identifier that names no live session fails with
/// `SessionNotFound` and changes nothing.
pub proof fn law_unknown_id_is_not_found<H>(m: Map<Seq<char>, SessionState<H>>, id: Seq<char>)
    requires
        !m.contains_key(id),
    ensures
        close_outcome(m, id) == Err::<(), PtyError>(PtyError::SessionNotFound),
        after_close(m, id) == m,
        forall|now: u64| after_activity(m, id, now) == m,
{
    assert(after_close(m, id) =~= m);
}

/// A sweep removes a session only if it has been idle for more than the
/// threshold: a session that was active within the threshold stays, as it
/// was, and a session that is gone was idle for longer.
pub proof fn law_sweep_spares_active<H>(
    m: Map<Seq<char>, SessionState<H>>,
    id: Seq<char>,
    now: u64,
    threshold: u64,
)
    requires
        m.contains_key(id),
    ensures
        elapsed(m[id].last_activity, now) <= threshold ==> without_idle(
            m,
            now,
            threshold,
        ).contains_key(id) && without_idle(m, now, threshold)[id] == m[id],
        !without_idle(m, now, threshold).contains_key(id) ==> elapsed(m[id].last_activity, now)
            > threshold,
        without_idle(m, now, threshold).submap_of(m),
{
}

/// The activity time of a session never moves back, whatever the clock
/// reads, and its time of registration never changes.
pub proof fn law_activity_never_moves_back<H>(
    m: Map<Seq<char>, SessionState<H>>,
    id: Seq<char>,
    now: u64,
)
    requires
        m.contains_key(id),
    ensures
        after_activity(m, id, now).contains_key(id),
        after_activity(m, id, now)[id].last_activity >= m[id].last_activity,
        after_activity(m, id, now)[id].last_activity >= now,
        after_activity(m, id, now)[id].created_at == m[id].created_at,
        after_activity(m, id, now)[id].handle == m[id].handle,
        after_activity(m, id, now).dom() == m.dom(),
{
    assert(after_activity(m, id, now).dom() =~= m.dom());
}

} // verus!
