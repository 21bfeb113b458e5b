//! Client sessions: each client id is mapped to its current session id and
//! the time it was last seen. A client's session continues while its events
//! arrive within the session timeout of the last one, and is replaced by a
//! fresh id otherwise.

use vstd::prelude::*;

use crate::events::{AnalyticsEventRow, RowView};

verus! {

/// How long a session stays open without events, in milliseconds.
pub const SESSION_TIMEOUT: i64 = 600000;

/// The contents of a session store: client id to (session id, last seen).
pub type SessionMap = Map<Seq<char>, (Seq<char>, i64)>;

/// One client's session.
pub struct SessionEntry {
    pub client_id: String,
    pub session_id: String,
    pub last_ts: i64,
}

/// The sessions of all clients, at most one per client id.
pub struct SessionStore {
    entries: Vec<SessionEntry>,
    contents: Ghost<SessionMap>,
}

impl View for SessionStore {
    type V = SessionMap;

    closed spec fn view(&self) -> SessionMap {
        self.contents@
    }
}

/// Whether `s` has the shape of a hyphenated lowercase version 7 UUID:
/// 36 characters, hyphens at positions 8, 13, 18 and 23, the version digit
/// `7` at position 14, and lowercase hexadecimal digits elsewhere.
pub open spec fn is_uuid_v7_text(s: Seq<char>) -> bool {
    &&& s.len() == 36
    &&& s[8] == '-' && s[13] == '-' && s[18] == '-' && s[23] == '-'
    &&& s[14] == '7'
    &&& forall|i: int|
        0 <= i < 36 && i != 8 && i != 13 && i != 18 && i != 23 ==> {
            let c = #[trigger] s[i];
            ('0' <= c <= '9') || ('a' <= c <= 'f')
        }
}

/// Generates a fresh session id with `uuid::Uuid::now_v7()` and renders it
/// with `to_string()`, the hyphenated lowercase form. The id depends on the
/// time and on random bits: only its shape is stated.
#[verifier::external_body]
fn new_session_id() -> (id: String)
    ensures
        is_uuid_v7_text(id@),
{
    uuid::Uuid::now_v7().to_string()
}

impl SessionStore {
    /// The store's internal consistency: the map is finite, each entry is in
    /// the map with its values, each client id of the map has an entry, and
    /// no client id appears twice.
    pub closed spec fn wf(&self) -> bool {
        &&& self.contents@.dom().finite()
        &&& forall|i: int|
            0 <= i < self.entries@.len() ==> {
                let e = #[trigger] self.entries@[i];
                &&& self.contents@.contains_key(e.client_id@)
                &&& self.contents@[e.client_id@] == (e.session_id@, e.last_ts)
            }
        &&& forall|k: Seq<char>|
            #[trigger] self.contents@.contains_key(k) ==> exists|i: int|
                0 <= i < self.entries@.len() && #[trigger] self.entries@[i].client_id@ == k
        &&& forall|i: int, j: int|
            0 <= i < self.entries@.len() && 0 <= j < self.entries@.len() && i != j
                ==> #[trigger] self.entries@[i].client_id@ != #[trigger] self.entries@[j].client_id@
    }

    /// A well-formed store holds finitely many sessions.
    pub proof fn lemma_finite(&self)
        requires
            self.wf(),
        ensures
            self@.dom().finite(),
    {
    }

    /// An empty store.
    pub fn new() -> (store: SessionStore)
        ensures
            store.wf(),
            store@ == SessionMap::empty(),
            store@.dom().finite(),
    {
        SessionStore { entries: Vec::new(), contents: Ghost(Map::empty()) }
    }

    fn find(&self, client_id: &String) -> (idx: Option<usize>)
        requires
            self.wf(),
        ensures
            match idx {
                Some(i) => i < self.entries@.len() && self.entries@[i as int].client_id@
                    == client_id@,
                None => !self@.contains_key(client_id@),
            },
    {
        let mut i: usize = 0;
        while i < self.entries.len()
            invariant
                self.wf(),
                i <= self.entries@.len(),
                forall|j: int| 0 <= j < i ==> #[trigger] self.entries@[j].client_id@ != client_id@,
            decreases self.entries@.len() - i,
        {
            if self.entries[i].client_id == *client_id {
                return Some(i);
            }
            i = i + 1;
        }
        None
    }

    /// The session of a client: its session id and when it was last seen.
    pub fn get(&self, client_id: &String) -> (found: Option<(String, i64)>)
        requires
            self.wf(),
        ensures
            match found {
                Some((sid, ts)) => self@.contains_key(client_id@) && self@[client_id@] == (
                    sid@,
                    ts,
                ),
                None => !self@.contains_key(client_id@),
            },
    {
        match self.find(client_id) {
            Some(i) => Some((self.entries[i].session_id.clone(), self.entries[i].last_ts)),
            None => None,
        }
    }

    /// Records `(session_id, last_ts)` as the session of `client_id`,
    /// replacing any earlier one.
    pub fn insert(&mut self, client_id: String, session_id: String, last_ts: i64)
        requires
            old(self).wf(),
        ensures
            final(self).wf(),
            final(self)@ == old(self)@.insert(client_id@, (session_id@, last_ts)),
            final(self)@.dom().finite(),
    {
        let ghost key = client_id@;
        let ghost value = (session_id@, last_ts);
        let ghost old_entries = self.entries@;
        match self.find(&client_id) {
            Some(i) => {
                self.entries.set(i, SessionEntry { client_id, session_id, last_ts });
                self.contents = Ghost(self.contents@.insert(key, value));
                proof {
                    assert forall|k: Seq<char>| #[trigger] self.contents@.contains_key(k) implies exists|j: int|
                        0 <= j < self.entries@.len() && #[trigger] self.entries@[j].client_id@ == k by {
                        if k == key {
                            assert(self.entries@[i as int].client_id@ == k);
                        } else {
                            let j = choose|j: int| 0 <= j < old_entries.len() && #[trigger] old_entries[j].client_id@ == k;
                            assert(self.entries@[j].client_id@ == k);
                        }
                    }
                }
            },
            None => {
                self.entries.push(SessionEntry { client_id, session_id, last_ts });
                self.contents = Ghost(self.contents@.insert(key, value));
                proof {
                    let n = old_entries.len() as int;
                    assert(self.entries@[n].client_id@ == key);
                    assert forall|k: Seq<char>| #[trigger] self.contents@.contains_key(k) implies exists|j: int|
                        0 <= j < self.entries@.len() && #[trigger] self.entries@[j].client_id@ == k by {
                        if k == key {
                            assert(self.entries@[n].client_id@ == k);
                        } else {
                            let j = choose|j: int| 0 <= j < old_entries.len() && #[trigger] old_entries[j].client_id@ == k;
                            assert(self.entries@[j].client_id@ == k);
                        }
                    }
                }
            },
        }
    }
}


/// The row and the sessions after an event is assigned its session, with
/// `fresh` as the id of a new session if one is needed:
/// - a known client whose event comes less than the timeout after it was
///   last seen keeps its session, now last seen at the row's server time;
/// - a known client past the timeout gets the fresh session, last seen at
///   the row's server time;
/// - an unknown client gets the fresh session, last seen at the row's
///   client time.
pub open spec fn session_step(r: RowView, store: SessionMap, fresh: Seq<char>) -> (RowView, SessionMap) {
    let cid = r.client_id;
    if store.contains_key(cid) {
        let (sid, last) = store[cid];
        if r.client_ts - last < SESSION_TIMEOUT {
            (RowView { session_id: sid, ..r }, store.insert(cid, (sid, r.server_ts)))
        } else {
            (RowView { session_id: fresh, ..r }, store.insert(cid, (fresh, r.server_ts)))
        }
    } else {
        (RowView { session_id: fresh, ..r }, store.insert(cid, (fresh, r.client_ts)))
    }
}

/// Whether the client of `r` is known and its event comes less than the
/// timeout after it was last seen, so that it keeps its session.
pub open spec fn session_continues(r: RowView, store: SessionMap) -> bool {
    store.contains_key(r.client_id) && r.client_ts - store[r.client_id].1 < SESSION_TIMEOUT
}

/// Whether the time since the client of `r` was last seen fits in an `i64`
/// (always so for an unknown client).
pub open spec fn session_gap_fits(r: RowView, store: SessionMap) -> bool {
    store.contains_key(r.client_id) ==> i64::MIN <= r.client_ts - store[r.client_id].1 <= i64::MAX
}

impl AnalyticsEventRow {
    /// Assigns this row its session, with `fresh_id` as the id of a new
    /// session if one is needed, and records the session in `sessions`.
    pub fn assign_session(&mut self, sessions: &mut SessionStore, fresh_id: String)
        requires
            old(sessions).wf(),
            session_gap_fits(old(self)@, old(sessions)@),
        ensures
            final(sessions).wf(),
            (final(self)@, final(sessions)@) == session_step(old(self)@, old(sessions)@, fresh_id@),
            final(sessions)@.dom().finite(),
            final(sessions)@.contains_key(old(self)@.client_id),
            final(sessions)@[old(self)@.client_id].0 == final(self)@.session_id,
            final(sessions)@.len() <= old(sessions)@.len() + 1,
            forall|k: Seq<char>|
                k != old(self)@.client_id ==> (#[trigger] final(sessions)@.contains_key(k)
                    <==> old(sessions)@.contains_key(k)) && (old(sessions)@.contains_key(k)
                    ==> final(sessions)@[k] == old(sessions)@[k]),
    {
        proof {
            old(sessions).lemma_finite();
            lemma_session_recorded(old(self)@, old(sessions)@, fresh_id@);
        }
        match sessions.get(&self.client_id) {
            Some((session_id, last_ts)) => {
                if self.client_ts - last_ts < SESSION_TIMEOUT {
                    self.session_id = session_id.clone();
                    sessions.insert(self.client_id.clone(), session_id, self.server_ts);
                } else {
                    self.session_id = fresh_id.clone();
                    sessions.insert(self.client_id.clone(), fresh_id, self.server_ts);
                }
            },
            None => {
                self.session_id = fresh_id.clone();
                sessions.insert(self.client_id.clone(), fresh_id, self.client_ts);
            },
        }
    }

    /// Assigns this row its session and records it in `sessions`; when a
    /// new session is needed, its id is a freshly generated version 7 UUID.
    pub fn set_session_id(&mut self, sessions: &mut SessionStore)
        requires
            old(sessions).wf(),
            session_gap_fits(old(self)@, old(sessions)@),
        ensures
            final(sessions).wf(),
            session_continues(old(self)@, old(sessions)@) ==> (final(self)@, final(sessions)@)
                == session_step(old(self)@, old(sessions)@, Seq::empty()),
            !session_continues(old(self)@, old(sessions)@) ==> exists|fresh: Seq<char>|
                is_uuid_v7_text(fresh) && (final(self)@, final(sessions)@) == session_step(
                    old(self)@,
                    old(sessions)@,
                    fresh,
                ),
            final(sessions)@.dom().finite(),
            final(sessions)@.contains_key(old(self)@.client_id),
            final(sessions)@[old(self)@.client_id].0 == final(self)@.session_id,
            final(sessions)@.len() <= old(sessions)@.len() + 1,
            forall|k: Seq<char>|
                k != old(self)@.client_id ==> (#[trigger] final(sessions)@.contains_key(k)
                    <==> old(sessions)@.contains_key(k)) && (old(sessions)@.contains_key(k)
                    ==> final(sessions)@[k] == old(sessions)@[k]),
    {
        let continues = match sessions.get(&self.client_id) {
            Some((_, last_ts)) => self.client_ts - last_ts < SESSION_TIMEOUT,
            None => false,
        };
        let fresh_id = if continues {
            String::new()
        } else {
            new_session_id()
        };
        self.assign_session(sessions, fresh_id);
    }
}

/// After an event is assigned its session, the store records that session
/// for the event's client, leaves every other client's session as it was,
/// and (when it held finitely many) grows by at most one session; the row
/// changes in its session id only.
pub proof fn lemma_session_recorded(r: RowView, store: SessionMap, fresh: Seq<char>)
    ensures
        ({
            let (r2, s2) = session_step(r, store, fresh);
            &&& store.dom().finite() ==> s2.dom().finite() && s2.len() <= store.len() + 1
            &&& s2.contains_key(r.client_id)
            &&& s2[r.client_id].0 == r2.session_id
            &&& forall|k: Seq<char>|
                k != r.client_id ==> (#[trigger] s2.contains_key(k) <==> store.contains_key(k))
                    && (store.contains_key(k) ==> s2[k] == store[k])
            &&& RowView { session_id: r.session_id, ..r2 } == r
        }),
{
}

/// A client seen for the first time starts the fresh session, last seen at
/// the event's client time.
pub proof fn lemma_new_client_starts_fresh_session(r: RowView, store: SessionMap, fresh: Seq<char>)
    requires
        !store.contains_key(r.client_id),
    ensures
        session_step(r, store, fresh).0.session_id == fresh,
        session_step(r, store, fresh).1[r.client_id] == (fresh, r.client_ts),
{
}

/// A client whose event comes at least the timeout after it was last seen
/// starts the fresh session.
pub proof fn lemma_session_expires(r: RowView, store: SessionMap, fresh: Seq<char>)
    requires
        store.contains_key(r.client_id),
        r.client_ts - store[r.client_id].1 >= SESSION_TIMEOUT,
    ensures
        session_step(r, store, fresh).0.session_id == fresh,
        session_step(r, store, fresh).1[r.client_id] == (fresh, r.server_ts),
{
}

/// Two events of one client share a session, whatever fresh ids were at
/// hand, when the second comes (by its client time) less than the timeout
/// after the time at which the first was recorded: its server time for a
/// known client, its client time for a client seen for the first time.
pub proof fn lemma_session_continues(
    r1: RowView,
    r2: RowView,
    store: SessionMap,
    fresh1: Seq<char>,
    fresh2: Seq<char>,
)
    requires
        r1.client_id == r2.client_id,
        r2.client_ts - (if store.contains_key(r1.client_id) {
            r1.server_ts
        } else {
            r1.client_ts
        }) < SESSION_TIMEOUT,
    ensures
        ({
            let (a, s1) = session_step(r1, store, fresh1);
            let (b, s2) = session_step(r2, s1, fresh2);
            &&& b.session_id == a.session_id
            &&& s2[r2.client_id] == (a.session_id, r2.server_ts)
        }),
{
}

/// What a store gives back for a client is what was last recorded for it;
/// recording a client's session leaves the others' as they were.
pub proof fn lemma_store_read_after_write(
    store: SessionMap,
    client_id: Seq<char>,
    session: (Seq<char>, i64),
    other: Seq<char>,
)
    requires
        other != client_id,
    ensures
        store.insert(client_id, session).contains_key(client_id),
        store.insert(client_id, session)[client_id] == session,
        store.insert(client_id, session).contains_key(other) <==> store.contains_key(other),
        store.contains_key(other) ==> store.insert(client_id, session)[other] == store[other],
{
}

} // verus!
