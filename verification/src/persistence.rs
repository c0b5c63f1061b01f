//! Session persistence for crash recovery.
//!
//! The persistence file (`~/.tivana/sessions.json`) lists the sessions that were
//! open, so that they can be reattached after a runtime restart (in --connect mode).
//! This module holds the records and the edits made to them; the driver reads and
//! writes the file around each edit.

use vstd::prelude::*;
use crate::text::str_eq;

verus! {

/// A UTC instant: whole seconds since the Unix epoch and the nanoseconds past them.
#[derive(Debug, Clone, Copy, PartialEq, Eq, Structural)]
pub struct Timestamp {
    pub secs: i64,
    pub nanos: u32,
}

/// Persisted state for a single session
#[derive(Debug, Clone)]
pub struct PersistedSession {
    /// Unique session ID
    pub session_id: String,
    /// Whether the session was running headless
    pub headless: bool,
    /// Active tab target IDs
    pub target_ids: Vec<String>,
    /// Page URLs corresponding to targets
    pub page_urls: Vec<String>,
    /// When the session was created
    pub created_at: Timestamp,
    /// Whether the session is considered stale (target no longer reachable)
    pub stale: bool,
}

/// Top-level persistence file structure
#[derive(Debug)]
pub struct PersistedState {
    /// Runtime version that wrote this file
    pub version: String,
    /// When this file was last written
    pub updated_at: Timestamp,
    /// Persisted sessions
    pub sessions: Vec<PersistedSession>,
}

/// The sessions without those recorded under `id`, in order.
pub open spec fn without_id(s: Seq<PersistedSession>, id: Seq<char>) -> Seq<PersistedSession>
    decreases s.len(),
{
    if s.len() == 0 {
        s
    } else if s.last().session_id@ == id {
        without_id(s.drop_last(), id)
    } else {
        without_id(s.drop_last(), id).push(s.last())
    }
}

/// The sessions that are not stale, in order.
pub open spec fn live_only(s: Seq<PersistedSession>) -> Seq<PersistedSession>
    decreases s.len(),
{
    if s.len() == 0 {
        s
    } else if s.last().stale {
        live_only(s.drop_last())
    } else {
        live_only(s.drop_last()).push(s.last())
    }
}

/// The position of the first session recorded under `id`, from position `from` on.
pub open spec fn first_with_id(s: Seq<PersistedSession>, id: Seq<char>, from: int) -> Option<int>
    decreases s.len() - from,
{
    if from < 0 || from >= s.len() {
        None
    } else if s[from].session_id@ == id {
        Some(from)
    } else {
        first_with_id(s, id, from + 1)
    }
}

/// The sessions after marking the first one recorded under `id` stale.
pub open spec fn marked_stale(s: Seq<PersistedSession>, id: Seq<char>) -> Seq<PersistedSession> {
    match first_with_id(s, id, 0) {
        Some(i) => s.update(i, PersistedSession { stale: true, ..s[i] }),
        None => s,
    }
}

/// The runtime version recorded in every persistence file this runtime writes.
pub const RUNTIME_VERSION: &'static str = "0.1.0";

/// Whether `state` carries this runtime's version and was written at `now`.
pub open spec fn stamped(state: PersistedState, now: Timestamp) -> bool {
    state.version@ == RUNTIME_VERSION@ && state.updated_at == now
}

/// Stamps a state as written now by this runtime: its version becomes
/// [`RUNTIME_VERSION`] and its write time `now`; the sessions stay as they are.
pub fn stamp_state(state: &mut PersistedState, now: Timestamp)
    ensures
        stamped(*final(state), now),
        final(state).sessions == old(state).sessions,
{
    state.version = String::from_str(RUNTIME_VERSION);
    state.updated_at = now;
}

impl PersistedState {
    /// An empty state written by this runtime at `now` (the default state).
    pub fn fresh(now: Timestamp) -> (s: Self)
        ensures
            stamped(s, now),
            s.sessions@.len() == 0,
    {
        PersistedState { version: String::from_str(RUNTIME_VERSION), updated_at: now, sessions: Vec::new() }
    }

    /// An empty state written by runtime `version` at `updated_at`.
    pub fn new(version: String, updated_at: Timestamp) -> (s: Self)
        ensures
            s.version == version,
            s.updated_at == updated_at,
            s.sessions@.len() == 0,
    {
        PersistedState { version, updated_at, sessions: Vec::new() }
    }
}

/// Removes every session recorded under `id`, keeping the others in order.
fn remove_sessions(state: &mut PersistedState, id: &str)
    ensures
        final(state).sessions@ == without_id(old(state).sessions@, id@),
        final(state).version == old(state).version,
        final(state).updated_at == old(state).updated_at,
{
    let mut rest: Vec<PersistedSession> = Vec::new();
    std::mem::swap(&mut rest, &mut state.sessions);
    let ghost all = rest@;
    let total = rest.len();
    let ghost n = all.len();
    let mut k: usize = 0;
    assert(all.subrange(0, 0) =~= Seq::<PersistedSession>::empty());
    assert(rest@ =~= all.subrange(0, n as int));
    while rest.len() > 0
        invariant
            n == all.len(),
            n == total,
            k + rest@.len() == n,
            rest@ == all.subrange(k as int, n as int),
            state.sessions@ == without_id(all.subrange(0, k as int), id@),
            state.version == old(state).version,
            state.updated_at == old(state).updated_at,
            all == old(state).sessions@,
        decreases rest.len(),
    {
        let x = rest.remove(0);
        let ghost prefix = all.subrange(0, k + 1);
        assert(prefix.drop_last() =~= all.subrange(0, k as int));
        assert(prefix.last() == x);
        if !str_eq(x.session_id.as_str(), id) {
            state.sessions.push(x);
        }
        k = k + 1;
        assert(rest@ =~= all.subrange(k as int, n as int));
    }
    assert(all.subrange(0, n as int) =~= all);
}

/// Record a session creation at `now`: any earlier record of the session is replaced
/// by a fresh, live one at the end, and the state is stamped as written now.
pub fn persist_session_create(
    state: &mut PersistedState,
    session_id: &str,
    headless: bool,
    target_ids: Vec<String>,
    page_urls: Vec<String>,
    now: Timestamp,
)
    ensures
        final(state).sessions@.len() == without_id(old(state).sessions@, session_id@).len() + 1,
        final(state).sessions@.drop_last() == without_id(old(state).sessions@, session_id@),
        final(state).sessions@.last().session_id@ == session_id@,
        final(state).sessions@.last().headless == headless,
        final(state).sessions@.last().target_ids == target_ids,
        final(state).sessions@.last().page_urls == page_urls,
        final(state).sessions@.last().created_at == now,
        !final(state).sessions@.last().stale,
        stamped(*final(state), now),
{
    remove_sessions(state, session_id);
    let record = PersistedSession {
        session_id: String::from_str(session_id),
        headless,
        target_ids,
        page_urls,
        created_at: now,
        stale: false,
    };
    state.sessions.push(record);
    assert(state.sessions@.drop_last() =~= without_id(old(state).sessions@, session_id@));
    stamp_state(state, now);
}

/// Record a session closure at `now`: its records are removed, and the state is
/// stamped as written now.
pub fn persist_session_close(state: &mut PersistedState, session_id: &str, now: Timestamp)
    ensures
        final(state).sessions@ == without_id(old(state).sessions@, session_id@),
        stamped(*final(state), now),
{
    remove_sessions(state, session_id);
    stamp_state(state, now);
}

/// Mark a session as stale (target no longer reachable) at `now`: its first record is
/// marked, and the state is stamped as written now.
pub fn mark_session_stale(state: &mut PersistedState, session_id: &str, now: Timestamp)
    ensures
        final(state).sessions@ == marked_stale(old(state).sessions@, session_id@),
        stamped(*final(state), now),
{
    mark_first_stale(state, session_id);
    stamp_state(state, now);
}

fn mark_first_stale(state: &mut PersistedState, session_id: &str)
    ensures
        final(state).sessions@ == marked_stale(old(state).sessions@, session_id@),
{
    let mut i: usize = 0;
    while i < state.sessions.len()
        invariant
            i <= state.sessions@.len(),
            state.sessions@ == old(state).sessions@,
            first_with_id(state.sessions@, session_id@, 0) == first_with_id(
                state.sessions@,
                session_id@,
                i as int,
            ),
        decreases state.sessions.len() - i,
    {
        if str_eq(state.sessions[i].session_id.as_str(), session_id) {
            state.sessions[i].stale = true;
            proof {
                assert(state.sessions@ =~= marked_stale(old(state).sessions@, session_id@));
            }
            return;
        }
        i = i + 1;
    }
}

/// Get all non-stale persisted sessions, in order.
pub fn get_active_persisted_sessions(state: PersistedState) -> (r: Vec<PersistedSession>)
    ensures
        r@ == live_only(state.sessions@),
{
    let mut rest = state.sessions;
    let ghost all = rest@;
    let total = rest.len();
    let ghost n = all.len();
    let mut r: Vec<PersistedSession> = Vec::new();
    let mut k: usize = 0;
    assert(all.subrange(0, 0) =~= Seq::<PersistedSession>::empty());
    assert(rest@ =~= all.subrange(0, n as int));
    while rest.len() > 0
        invariant
            n == all.len(),
            n == total,
            k + rest@.len() == n,
            rest@ == all.subrange(k as int, n as int),
            r@ == live_only(all.subrange(0, k as int)),
        decreases rest.len(),
    {
        let x = rest.remove(0);
        let ghost prefix = all.subrange(0, k + 1);
        assert(prefix.drop_last() =~= all.subrange(0, k as int));
        assert(prefix.last() == x);
        if !x.stale {
            r.push(x);
        }
        k = k + 1;
        assert(rest@ =~= all.subrange(k as int, n as int));
    }
    assert(all.subrange(0, n as int) =~= all);
    r
}

/// Clear all persisted sessions at `now`: the state becomes the default one, empty and
/// stamped as written now.
pub fn clear_all(state: &mut PersistedState, now: Timestamp)
    ensures
        final(state).sessions@.len() == 0,
        stamped(*final(state), now),
{
    *state = PersistedState::fresh(now);
}

proof fn lemma_without_id_members(s: Seq<PersistedSession>, id: Seq<char>)
    ensures
        without_id(s, id).len() <= s.len(),
        forall|i: int|
            0 <= i < without_id(s, id).len() ==> exists|j: int|
                0 <= j < s.len() && #[trigger] without_id(s, id)[i] == s[j] && s[j].session_id@
                    != id,
    decreases s.len(),
{
    if s.len() > 0 {
        let t = s.drop_last();
        lemma_without_id_members(t, id);
        let r = without_id(s, id);
        assert forall|i: int| 0 <= i < r.len() implies exists|j: int|
            0 <= j < s.len() && #[trigger] r[i] == s[j] && s[j].session_id@ != id by {
            if i < without_id(t, id).len() {
                let j = choose|j: int|
                    0 <= j < t.len() && #[trigger] without_id(t, id)[i] == t[j] && t[j].session_id@
                        != id;
                assert(r[i] == s[j]);
            } else {
                assert(r[i] == s[s.len() - 1]);
            }
        }
    }
}

proof fn lemma_live_only_members(s: Seq<PersistedSession>)
    ensures
        forall|i: int|
            0 <= i < live_only(s).len() ==> exists|j: int|
                0 <= j < s.len() && #[trigger] live_only(s)[i] == s[j] && !s[j].stale,
    decreases s.len(),
{
    if s.len() > 0 {
        let t = s.drop_last();
        lemma_live_only_members(t);
        let r = live_only(s);
        assert forall|i: int| 0 <= i < r.len() implies exists|j: int|
            0 <= j < s.len() && #[trigger] r[i] == s[j] && !s[j].stale by {
            if i < live_only(t).len() {
                let j = choose|j: int|
                    0 <= j < t.len() && #[trigger] live_only(t)[i] == t[j] && !t[j].stale;
                assert(r[i] == s[j]);
            } else {
                assert(r[i] == s[s.len() - 1]);
            }
        }
    }
}

proof fn lemma_without_absent(s: Seq<PersistedSession>, id: Seq<char>)
    requires
        forall|i: int| 0 <= i < s.len() ==> (#[trigger] s[i]).session_id@ != id,
    ensures
        without_id(s, id) == s,
    decreases s.len(),
{
    if s.len() > 0 {
        lemma_without_absent(s.drop_last(), id);
        assert(s.drop_last().push(s.last()) =~= s);
    }
}

proof fn lemma_live_keeps_live(s: Seq<PersistedSession>)
    requires
        s.len() > 0,
        !s.last().stale,
    ensures
        live_only(s).len() > 0,
        live_only(s).last() == s.last(),
{
}

/// After a session's creation is recorded, exactly one record holds its id, it is the
/// last one, and it is live: reattaching finds the session once.
pub proof fn law_created_session_is_live_once(
    before: Seq<PersistedSession>,
    id: Seq<char>,
    record: PersistedSession,
)
    requires
        record.session_id@ == id,
        !record.stale,
    ensures
        ({
            let after = without_id(before, id).push(record);
            &&& forall|i: int| 0 <= i < after.len() - 1 ==> (#[trigger] after[i]).session_id@ != id
            &&& live_only(after).len() > 0
            &&& live_only(after).last() == record
            &&& forall|i: int|
                0 <= i < live_only(after).len() - 1 ==> (#[trigger] live_only(after)[i]).session_id@
                    != id
        }),
{
    let w = without_id(before, id);
    let after = w.push(record);
    lemma_without_id_members(before, id);
    assert forall|i: int| 0 <= i < after.len() - 1 implies (#[trigger] after[i]).session_id@ != id by {
        assert(after[i] == w[i]);
        let j = choose|j: int| 0 <= j < before.len() && #[trigger] w[i] == before[j] && before[j].session_id@ != id;
    }
    lemma_live_keeps_live(after);
    assert(after.drop_last() =~= w);
    lemma_live_only_members(w);
    assert(live_only(after) == live_only(w).push(record));
    assert forall|i: int| 0 <= i < live_only(after).len() - 1 implies (#[trigger] live_only(after)[i]).session_id@ != id by {
        assert(live_only(after)[i] == live_only(w)[i]);
        let j = choose|j: int| 0 <= j < w.len() && #[trigger] live_only(w)[i] == w[j] && !w[j].stale;
        let k = choose|k: int| 0 <= k < before.len() && #[trigger] w[j] == before[k] && before[k].session_id@ != id;
    }
}

/// After a session's closure is recorded, no record holds its id; recording it again
/// changes nothing.
pub proof fn law_closed_session_is_gone(before: Seq<PersistedSession>, id: Seq<char>)
    ensures
        forall|i: int|
            0 <= i < without_id(before, id).len() ==> (#[trigger] without_id(before, id)[i]).session_id@
                != id,
        without_id(without_id(before, id), id) == without_id(before, id),
{
    lemma_without_id_members(before, id);
    let w = without_id(before, id);
    assert forall|i: int| 0 <= i < w.len() implies (#[trigger] w[i]).session_id@ != id by {
        let j = choose|j: int| 0 <= j < before.len() && #[trigger] w[i] == before[j] && before[j].session_id@ != id;
    }
    lemma_without_absent(w, id);
}

/// Creating and then closing a session leaves the records as closing it alone would.
pub proof fn law_create_then_close_records(
    before: Seq<PersistedSession>,
    id: Seq<char>,
    record: PersistedSession,
)
    requires
        record.session_id@ == id,
    ensures
        without_id(without_id(before, id).push(record), id) == without_id(before, id),
{
    let w = without_id(before, id);
    assert(w.push(record).drop_last() =~= w);
    law_closed_session_is_gone(before, id);
}

/// A session recorded once and then marked stale is no longer among the live ones:
/// reattaching skips it.
pub proof fn law_stale_session_not_live(before: Seq<PersistedSession>, id: Seq<char>)
    requires
        forall|i: int, j: int|
            0 <= i < before.len() && 0 <= j < before.len() && (#[trigger] before[i]).session_id@
                == id && (#[trigger] before[j]).session_id@ == id ==> i == j,
    ensures
        forall|i: int|
            0 <= i < live_only(marked_stale(before, id)).len() ==> (#[trigger] live_only(
                marked_stale(before, id),
            )[i]).session_id@ != id,
{
    let m = marked_stale(before, id);
    lemma_live_only_members(m);
    lemma_first_with_id(before, id, 0);
    assert forall|i: int| 0 <= i < live_only(m).len() implies (#[trigger] live_only(m)[i]).session_id@ != id by {
        let j = choose|j: int| 0 <= j < m.len() && #[trigger] live_only(m)[i] == m[j] && !m[j].stale;
        if m[j].session_id@ == id {
            match first_with_id(before, id, 0) {
                Some(k) => {
                    if j != k {
                        assert(m[j] == before[j]);
                        assert(before[k].session_id@ == id);
                    }
                },
                None => {
                    assert(m[j] == before[j]);
                },
            }
        }
    }
}

proof fn lemma_first_with_id(s: Seq<PersistedSession>, id: Seq<char>, from: int)
    requires
        0 <= from,
    ensures
        match first_with_id(s, id, from) {
            Some(k) => from <= k < s.len() && s[k].session_id@ == id,
            None => forall|i: int| from <= i < s.len() ==> (#[trigger] s[i]).session_id@ != id,
        },
    decreases s.len() - from,
{
    if from < s.len() {
        lemma_first_with_id(s, id, from + 1);
    }
}

} // verus!
