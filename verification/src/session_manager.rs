//! All open sessions, and which one has the focus.
//!
//! Sessions keep the order in which they were added; ids are handed out in
//! increasing order and never reused. The manager also keeps the id it last
//! published to the network tasks as the active one (`usize::MAX` before any),
//! which the application mirrors into the counter those tasks read.
use vstd::prelude::*;

use crate::seq_util::lemma_take_push;
use vstd::arithmetic::div_mod::{lemma_mod_add_multiples_vanish, lemma_mod_self_0, lemma_small_mod};
use crate::session::{ConnectionMode, Session, SessionId, fresh_session, with_unread};

verus! {

/// The abstract state of a [`SessionManager`].
pub struct ManagerView {
    pub sessions: Seq<Session>,
    pub active: Option<SessionId>,
    pub next_id: nat,
    pub published: usize,
}

/// The ids of `s`, in order.
pub open spec fn ids(s: Seq<Session>) -> Seq<SessionId> {
    s.map_values(|x: Session| x.id)
}

/// Ids grow strictly along the sequence (so no id occurs twice).
pub open spec fn ids_increasing(s: Seq<Session>) -> bool {
    forall|i: int, j: int| 0 <= i < j < s.len() ==> #[trigger] s[i].id < #[trigger] s[j].id
}

/// Some session in `s` has id `id`.
pub open spec fn has_id(s: Seq<Session>, id: SessionId) -> bool {
    exists|i: int| 0 <= i < s.len() && #[trigger] s[i].id == id
}

/// The position of the session with id `id`.
pub open spec fn index_of_id(s: Seq<Session>, id: SessionId) -> int {
    choose|i: int| 0 <= i < s.len() && #[trigger] s[i].id == id
}

/// The test that keeps a session whose id is not `id`.
pub open spec fn id_is_not(id: SessionId) -> spec_fn(Session) -> bool {
    |s: Session| s.id != id
}

/// The test that keeps an id other than the active one.
pub open spec fn not_active(active: Option<SessionId>) -> spec_fn(SessionId) -> bool {
    |x: SessionId| Some(x) != active
}

impl ManagerView {
    /// The manager's invariant.
    pub open spec fn wf(self) -> bool {
        &&& ids_increasing(self.sessions)
        &&& forall|i: int| 0 <= i < self.sessions.len() ==> #[trigger] self.sessions[i].id < self.next_id
        &&& (self.active is None <==> self.sessions.len() == 0)
        &&& (self.active matches Some(a) ==> has_id(self.sessions, a))
    }

    /// The position of the active session.
    pub open spec fn active_index(self) -> int {
        index_of_id(self.sessions, self.active->0)
    }

    /// Focus moved to the session with id `id`, whose unread count is cleared;
    /// nothing changes when there is no such session.
    pub open spec fn activate(self, id: SessionId) -> ManagerView {
        if has_id(self.sessions, id) {
            let i = index_of_id(self.sessions, id);
            ManagerView {
                sessions: self.sessions.update(i, with_unread(self.sessions[i], 0)),
                active: Some(id),
                published: id,
                ..self
            }
        } else {
            self
        }
    }

    /// Focus moved to the next session, wrapping around at the end.
    pub open spec fn after_next(self) -> ManagerView {
        if self.sessions.len() < 2 || self.active is None {
            self
        } else {
            let p = self.active_index();
            self.activate(self.sessions[(p + 1) % (self.sessions.len() as int)].id)
        }
    }

    /// Focus moved to the previous session, wrapping around at the start.
    pub open spec fn after_prev(self) -> ManagerView {
        if self.sessions.len() < 2 || self.active is None {
            self
        } else {
            let p = self.active_index();
            let n = self.sessions.len() as int;
            self.activate(self.sessions[(p + n - 1) % n].id)
        }
    }
}

/// In a sequence with increasing ids, the session with a given id stands at
/// exactly one position.
pub proof fn lemma_index_unique(s: Seq<Session>, i: int)
    requires
        ids_increasing(s),
        0 <= i < s.len(),
    ensures
        has_id(s, s[i].id),
        index_of_id(s, s[i].id) == i,
{
    let id = s[i].id;
    assert(s[i].id == id);
    let k = index_of_id(s, id);
    if k < i {
        assert(s[k].id < s[i].id);
    } else if k > i {
        assert(s[i].id < s[k].id);
    }
}

/// Updating a session's unread count keeps every id where it was.
proof fn lemma_unread_update_keeps_ids(s: Seq<Session>, i: int, n: usize)
    requires
        0 <= i < s.len(),
    ensures
        forall|k: int| 0 <= k < s.len() ==> #[trigger] s.update(i, with_unread(s[i], n))[k].id == s[k].id,
{
}

/// Activating an existing session keeps the invariant.
pub proof fn lemma_activate_wf(v: ManagerView, id: SessionId)
    requires
        v.wf(),
    ensures
        v.activate(id).wf(),
        v.activate(id).sessions.len() == v.sessions.len(),
        forall|k: int| 0 <= k < v.sessions.len() ==> #[trigger] v.activate(id).sessions[k].id == v.sessions[k].id,
{
    if has_id(v.sessions, id) {
        let i = index_of_id(v.sessions, id);
        lemma_unread_update_keeps_ids(v.sessions, i, 0);
        let w = v.activate(id);
        assert(w.sessions[i].id == id);
    }
}

/// One step forward around a ring of `n` positions, then one step back.
proof fn lemma_step_back(p: int, n: int)
    requires
        0 <= p < n,
    ensures
        0 <= (p + 1) % n < n,
        ((p + 1) % n + n - 1) % n == p,
{
    if p + 1 < n {
        lemma_small_mod((p + 1) as nat, n as nat);
        lemma_mod_add_multiples_vanish(p, n);
        lemma_small_mod(p as nat, n as nat);
    } else {
        lemma_mod_self_0(n);
        lemma_small_mod((n - 1) as nat, n as nat);
    }
}

/// The position before `p` on a ring of `n` positions.
proof fn lemma_prev_position(p: int, n: int)
    requires
        0 <= p < n,
    ensures
        (p + n - 1) % n == if p == 0 {
            n - 1
        } else {
            p - 1
        },
{
    if p == 0 {
        lemma_small_mod((n - 1) as nat, n as nat);
    } else {
        lemma_mod_add_multiples_vanish(p - 1, n);
        lemma_small_mod((p - 1) as nat, n as nat);
    }
}

/// Moving to the next session and then to the previous one gives the focus
/// back to the session that had it.
pub proof fn lemma_next_then_prev(v: ManagerView)
    requires
        v.wf(),
    ensures
        v.after_next().after_prev().active == v.active,
        v.after_next().after_prev().sessions.len() == v.sessions.len(),
{
    if v.sessions.len() >= 2 && v.active is Some {
        let n = v.sessions.len() as int;
        let a = v.active->0;
        let p = v.active_index();
        assert(0 <= p < n && v.sessions[p].id == a);
        let q = (p + 1) % n;
        let target = v.sessions[q].id;
        lemma_index_unique(v.sessions, q);
        lemma_activate_wf(v, target);
        let w = v.after_next();
        assert(w == v.activate(target));
        assert(w.active == Some(target));
        assert(w.sessions[q].id == target);
        lemma_index_unique(w.sessions, q);
        assert(w.active_index() == q);
        lemma_step_back(p, n);
        assert(w.sessions[p].id == a);
        lemma_activate_wf(w, a);
        lemma_index_unique(w.sessions, p);
    }
}

/// With two or more sessions, Next gives the focus to the session after the
/// active one (the first after the last), and Prev to the one before it (the
/// last before the first): the focus always moves to another session, whose
/// id is published and whose unread count is cleared, and the other
/// sessions stay as they were.
pub proof fn lemma_next_prev_move_focus(v: ManagerView, p: int)
    requires
        v.wf(),
        v.sessions.len() >= 2,
        0 <= p < v.sessions.len(),
        v.active == Some(v.sessions[p].id),
    ensures
        ({
            let n = v.sessions.len() as int;
            let q = if p + 1 == n {
                0
            } else {
                p + 1
            };
            let w = v.after_next();
            &&& w.active == Some(v.sessions[q].id)
            &&& w.active != v.active
            &&& w.published == v.sessions[q].id
            &&& w.sessions.len() == n
            &&& w.sessions[q].id == v.sessions[q].id
            &&& w.sessions[q].label == v.sessions[q].label
            &&& w.sessions[q].unread_count == 0
            &&& forall|k: int| 0 <= k < n && k != q ==> #[trigger] w.sessions[k] == v.sessions[k]
        }),
        ({
            let n = v.sessions.len() as int;
            let q = if p == 0 {
                n - 1
            } else {
                p - 1
            };
            let w = v.after_prev();
            &&& w.active == Some(v.sessions[q].id)
            &&& w.active != v.active
            &&& w.published == v.sessions[q].id
            &&& w.sessions.len() == n
            &&& w.sessions[q].id == v.sessions[q].id
            &&& w.sessions[q].label == v.sessions[q].label
            &&& w.sessions[q].unread_count == 0
            &&& forall|k: int| 0 <= k < n && k != q ==> #[trigger] w.sessions[k] == v.sessions[k]
        }),
{
    let n = v.sessions.len() as int;
    lemma_index_unique(v.sessions, p);
    assert(v.active_index() == p);
    let qn = if p + 1 == n {
        0
    } else {
        p + 1
    };
    if p + 1 < n {
        lemma_small_mod((p + 1) as nat, n as nat);
    } else {
        lemma_mod_self_0(n);
    }
    assert((p + 1) % n == qn);
    lemma_index_unique(v.sessions, qn);
    assert(v.sessions[qn].id != v.sessions[p].id) by {
        if qn < p {
            assert(v.sessions[qn].id < v.sessions[p].id);
        } else {
            assert(v.sessions[p].id < v.sessions[qn].id);
        }
    }
    let qp = if p == 0 {
        n - 1
    } else {
        p - 1
    };
    lemma_prev_position(p, n);
    assert((p + n - 1) % n == qp);
    lemma_index_unique(v.sessions, qp);
    assert(v.sessions[qp].id != v.sessions[p].id) by {
        if qp < p {
            assert(v.sessions[qp].id < v.sessions[p].id);
        } else {
            assert(v.sessions[p].id < v.sessions[qp].id);
        }
    }
}

/// The set of open sessions and the focus.
pub struct SessionManager {
    sessions: Vec<Session>,
    active_id: Option<SessionId>,
    next_id: SessionId,
    /// The session id published to the network tasks as the active one.
    pub active_session_id: usize,
}

impl View for SessionManager {
    type V = ManagerView;

    closed spec fn view(&self) -> ManagerView {
        ManagerView {
            sessions: self.sessions@,
            active: self.active_id,
            next_id: self.next_id as nat,
            published: self.active_session_id,
        }
    }
}

impl Default for SessionManager {
    fn default() -> (m: Self)
        ensures
            m@.wf(),
            m@.sessions.len() == 0,
            m@.active is None,
            m@.next_id == 0,
            m@.published == usize::MAX,
    {
        Self::new()
    }
}

impl SessionManager {
    pub fn new() -> (m: Self)
        ensures
            m@.wf(),
            m@.sessions.len() == 0,
            m@.active is None,
            m@.next_id == 0,
            m@.published == usize::MAX,
    {
        SessionManager {
            sessions: Vec::new(),
            active_id: None,
            next_id: 0,
            active_session_id: usize::MAX,
        }
    }

    /// Whether another session can be added, that is, whether ids are left.
    pub fn can_add(&self) -> (b: bool)
        ensures
            b == (self@.next_id < usize::MAX),
    {
        self.next_id < usize::MAX
    }

    /// Adds a session at the end and returns its id; the first session added
    /// to an empty manager gets the focus.
    pub fn add(&mut self, label: String, mode: ConnectionMode) -> (id: SessionId)
        requires
            old(self)@.wf(),
            old(self)@.next_id < usize::MAX,
        ensures
            final(self)@.wf(),
            id == old(self)@.next_id,
            !has_id(old(self)@.sessions, id),
            final(self)@.sessions == old(self)@.sessions.push(fresh_session(id, label, mode)),
            final(self)@.next_id == old(self)@.next_id + 1,
            final(self)@.active == (if old(self)@.active is None {
                Some(id)
            } else {
                old(self)@.active
            }),
            final(self)@.published == (if old(self)@.active is None {
                id
            } else {
                old(self)@.published
            }),
    {
        let id = self.next_id;
        self.next_id = self.next_id + 1;
        let session = Session::new(id, label, mode);
        self.sessions.push(session);
        if self.active_id.is_none() {
            self.active_id = Some(id);
            self.active_session_id = id;
        }
        proof {
            let s = self@.sessions;
            assert(s[s.len() - 1].id == id);
            assert(has_id(s, id));
            if let Some(a) = old(self)@.active {
                let k = index_of_id(old(self)@.sessions, a);
                assert(s[k].id == a);
            }
        }
        id
    }

    /// Removes the session with id `id`. When it had the focus, the focus goes
    /// to the first remaining session, if any, and that session's id (or
    /// `usize::MAX` when none remains) is published as the active one.
    pub fn remove(&mut self, id: SessionId)
        requires
            old(self)@.wf(),
        ensures
            final(self)@.wf(),
            final(self)@.sessions == old(self)@.sessions.filter(id_is_not(id)),
            !has_id(final(self)@.sessions, id),
            final(self)@.next_id == old(self)@.next_id,
            final(self)@.published == (if old(self)@.active == Some(id) {
                match final(self)@.active {
                    Some(a) => a,
                    None => usize::MAX,
                }
            } else {
                old(self)@.published
            }),
            final(self)@.active == (if old(self)@.active == Some(id) {
                if final(self)@.sessions.len() > 0 {
                    Some(final(self)@.sessions[0].id)
                } else {
                    None
                }
            } else {
                old(self)@.active
            }),
    {
        let ghost s = self.sessions@;
        let mut kept: Vec<Session> = Vec::new();
        let mut i: usize = 0;
        proof {
            crate::seq_util::lemma_filter_empty(s.take(0), id_is_not(id));
        }
        while i < self.sessions.len()
            invariant
                self.sessions@ == s,
                old(self)@.wf(),
                s == old(self)@.sessions,
                i <= s.len(),
                kept@ == s.take(i as int).filter(id_is_not(id)),
                ids_increasing(kept@),
                forall|j: int, k: int|
                    0 <= j < kept@.len() && i <= k < s.len() ==> #[trigger] kept@[j].id
                        < #[trigger] s[k].id,
                forall|j: int| 0 <= j < kept@.len() ==> #[trigger] kept@[j].id != id,
                forall|j: int| 0 <= j < kept@.len() ==> #[trigger] kept@[j].id < old(self)@.next_id,
                forall|k: int|
                    0 <= k < i && #[trigger] s[k].id != id ==> has_id(kept@, s[k].id),
            decreases s.len() - i,
        {
            proof {
                lemma_take_push(s, i as int);
                crate::seq_util::lemma_filter_push(s.take(i as int), id_is_not(id), s[i as int]);
            }
            if self.sessions[i].id != id {
                let ghost before = kept@;
                kept.push(self.sessions[i].clone());
                proof {
                    assert(kept@[kept@.len() - 1].id == s[i as int].id);
                    assert forall|k: int| 0 <= k < i + 1 && #[trigger] s[k].id != id implies has_id(
                        kept@,
                        s[k].id,
                    ) by {
                        if k < i {
                            let j = choose|j: int| 0 <= j < before.len() && #[trigger] before[j].id == s[k].id;
                            assert(kept@[j].id == s[k].id);
                        } else {
                            assert(kept@[kept@.len() - 1].id == s[k].id);
                        }
                    }
                }
            }
            i = i + 1;
        }
        assert(s.take(s.len() as int) =~= s);
        let was_active = match self.active_id {
            Some(a) => a == id,
            None => false,
        };
        self.sessions = kept;
        if was_active {
            if self.sessions.len() > 0 {
                let first = self.sessions[0].id;
                self.active_id = Some(first);
                self.active_session_id = first;
            } else {
                self.active_id = None;
                self.active_session_id = usize::MAX;
            }
            proof {
                if self.sessions@.len() > 0 {
                    assert(self.sessions@[0].id == self.sessions@[0].id);
                }
            }
        } else {
            proof {
                if let Some(a) = self.active_id {
                    let k = index_of_id(s, a);
                    assert(s[k].id == a);
                    assert(has_id(self.sessions@, a));
                }
            }
        }
    }

    /// The position of the session with id `id`.
    fn find_index(&self, id: SessionId) -> (r: Option<usize>)
        requires
            self@.wf(),
        ensures
            r is None <==> !has_id(self@.sessions, id),
            r matches Some(i) ==> i < self@.sessions.len() && i == index_of_id(self@.sessions, id),
    {
        let mut i: usize = 0;
        while i < self.sessions.len()
            invariant
                self@.wf(),
                i <= self.sessions@.len(),
                forall|k: int| 0 <= k < i ==> #[trigger] self.sessions@[k].id != id,
            decreases self.sessions@.len() - i,
        {
            if self.sessions[i].id == id {
                proof {
                    lemma_index_unique(self.sessions@, i as int);
                }
                return Some(i);
            }
            i = i + 1;
        }
        None
    }

    /// The session that has the focus.
    pub fn active(&self) -> (r: Option<&Session>)
        requires
            self@.wf(),
        ensures
            r is None <==> self@.active is None,
            r matches Some(s) ==> *s == self@.sessions[self@.active_index()],
    {
        match self.active_id {
            Some(id) => self.get(id),
            None => None,
        }
    }

    /// The session that has the focus, to be changed in place.
    pub fn active_mut(&mut self) -> (r: Option<&mut Session>)
        requires
            old(self)@.wf(),
        ensures
            r is None <==> old(self)@.active is None,
            r is None ==> final(self)@ == old(self)@,
            r matches Some(s) ==> {
                &&& *s == old(self)@.sessions[old(self)@.active_index()]
                &&& final(self)@ == (ManagerView {
                    sessions: old(self)@.sessions.update(old(self)@.active_index(), *final(s)),
                    ..old(self)@
                })
            },
    {
        let id = match self.active_id {
            Some(id) => id,
            None => return None,
        };
        self.get_mut(id)
    }

    /// Gives the focus to the session with id `id` and clears its unread
    /// count; does nothing when there is no such session.
    pub fn set_active(&mut self, id: SessionId)
        requires
            old(self)@.wf(),
        ensures
            final(self)@ == old(self)@.activate(id),
            final(self)@.wf(),
    {
        proof {
            lemma_activate_wf(self@, id);
        }
        if let Some(i) = self.find_index(id) {
            self.active_id = Some(id);
            self.active_session_id = id;
            self.sessions[i].clear_unread();
        }
    }

    /// Gives the focus to the session at a 1-based position (as Ctrl+1..9);
    /// position 0 counts as 1, and a position past the end does nothing.
    pub fn set_active_by_index(&mut self, index: usize)
        requires
            old(self)@.wf(),
        ensures
            final(self)@.wf(),
            ({
                let i = if index == 0 {
                    0
                } else {
                    index - 1
                };
                final(self)@ == if i < old(self)@.sessions.len() {
                    old(self)@.activate(old(self)@.sessions[i].id)
                } else {
                    old(self)@
                }
            }),
    {
        let i = index.saturating_sub(1);
        if i < self.sessions.len() {
            let id = self.sessions[i].id;
            self.set_active(id);
        }
    }

    /// The position of the session that has the focus.
    fn active_pos(&self) -> (r: Option<usize>)
        requires
            self@.wf(),
        ensures
            r is None <==> self@.active is None,
            r matches Some(p) ==> p < self@.sessions.len() && p == self@.active_index(),
    {
        let id = match self.active_id {
            Some(id) => id,
            None => return None,
        };
        self.find_index(id)
    }

    /// Moves the focus to the next session, wrapping around; does nothing with
    /// fewer than two sessions.
    pub fn next(&mut self)
        requires
            old(self)@.wf(),
        ensures
            final(self)@ == old(self)@.after_next(),
            final(self)@.wf(),
    {
        let len = self.sessions.len();
        if len < 2 {
            return;
        }
        if let Some(pos) = self.active_pos() {
            let next_id = self.sessions[(pos + 1) % len].id;
            self.set_active(next_id);
        }
    }

    /// Moves the focus to the previous session, wrapping around; does nothing
    /// with fewer than two sessions.
    pub fn prev(&mut self)
        requires
            old(self)@.wf(),
        ensures
            final(self)@ == old(self)@.after_prev(),
            final(self)@.wf(),
    {
        let len = self.sessions.len();
        if len < 2 {
            return;
        }
        if let Some(pos) = self.active_pos() {
            let p = if pos == 0 {
                len - 1
            } else {
                pos - 1
            };
            proof {
                lemma_prev_position(pos as int, len as int);
            }
            let prev_id = self.sessions[p].id;
            self.set_active(prev_id);
        }
    }

    /// The session with id `id`.
    pub fn get(&self, id: SessionId) -> (r: Option<&Session>)
        requires
            self@.wf(),
        ensures
            r is None <==> !has_id(self@.sessions, id),
            r matches Some(s) ==> *s == self@.sessions[index_of_id(self@.sessions, id)],
    {
        match self.find_index(id) {
            Some(i) => Some(&self.sessions[i]),
            None => None,
        }
    }

    /// The session with id `id`, to be changed in place.
    pub fn get_mut(&mut self, id: SessionId) -> (r: Option<&mut Session>)
        requires
            old(self)@.wf(),
        ensures
            r is None <==> !has_id(old(self)@.sessions, id),
            r is None ==> final(self)@ == old(self)@,
            r matches Some(s) ==> {
                &&& *s == old(self)@.sessions[index_of_id(old(self)@.sessions, id)]
                &&& final(self)@ == (ManagerView {
                    sessions: old(self)@.sessions.update(
                        index_of_id(old(self)@.sessions, id),
                        *final(s),
                    ),
                    ..old(self)@
                })
            },
    {
        match self.find_index(id) {
            Some(i) => Some(&mut self.sessions[i]),
            None => None,
        }
    }

    /// All sessions, in order.
    pub fn all(&self) -> (r: &[Session])
        ensures
            r@ == self@.sessions,
    {
        self.sessions.as_slice()
    }

    /// All sessions, in order, to be changed in place.
    pub fn all_mut(&mut self) -> (r: &mut [Session])
        ensures
            r@ == old(self)@.sessions,
            final(self)@ == (ManagerView { sessions: final(r)@, ..old(self)@ }),
    {
        self.sessions.as_mut_slice()
    }

    /// Takes over the unread counts that the network tasks have counted, for
    /// every session but the active one; `counted[i]` belongs to the `i`-th
    /// session.
    pub fn sync_unread_all(&mut self, counted: &Vec<usize>)
        requires
            old(self)@.wf(),
            counted@.len() == old(self)@.sessions.len(),
        ensures
            final(self)@.wf(),
            final(self)@.active == old(self)@.active,
            final(self)@.next_id == old(self)@.next_id,
            final(self)@.published == old(self)@.published,
            final(self)@.sessions.len() == old(self)@.sessions.len(),
            forall|i: int|
                0 <= i < old(self)@.sessions.len() ==> #[trigger] final(self)@.sessions[i] == if Some(
                    old(self)@.sessions[i].id,
                ) == old(self)@.active {
                    old(self)@.sessions[i]
                } else {
                    with_unread(old(self)@.sessions[i], counted@[i])
                },
    {
        let active_id = self.active_id;
        let n = self.sessions.len();
        let mut i: usize = 0;
        while i < n
            invariant
                n == self.sessions@.len(),
                n == old(self)@.sessions.len(),
                counted@.len() == n,
                active_id == old(self)@.active,
                self.active_id == old(self)@.active,
                self.next_id == old(self)@.next_id,
                self.active_session_id == old(self)@.published,
                i <= n,
                forall|k: int| 0 <= k < n ==> #[trigger] self.sessions@[k].id == old(self)@.sessions[k].id,
                forall|k: int|
                    0 <= k < i ==> #[trigger] self.sessions@[k] == if Some(old(self)@.sessions[k].id)
                        == old(self)@.active {
                        old(self)@.sessions[k]
                    } else {
                        with_unread(old(self)@.sessions[k], counted@[k])
                    },
                forall|k: int| i <= k < n ==> #[trigger] self.sessions@[k] == old(self)@.sessions[k],
            decreases n - i,
        {
            let is_active = match active_id {
                Some(a) => self.sessions[i].id == a,
                None => false,
            };
            if !is_active {
                self.sessions[i].sync_unread(counted[i]);
            }
            i = i + 1;
        }
        proof {
            let v = self@;
            let o = old(self)@;
            assert forall|a: int, b: int| 0 <= a < b < v.sessions.len() implies #[trigger] v.sessions[a].id
                < #[trigger] v.sessions[b].id by {
                assert(o.sessions[a].id < o.sessions[b].id);
            }
            assert forall|k: int| 0 <= k < v.sessions.len() implies #[trigger] v.sessions[k].id
                < v.next_id by {
                assert(o.sessions[k].id < o.next_id);
            }
            if let Some(a) = v.active {
                let k = index_of_id(o.sessions, a);
                assert(o.sessions[k].id == a);
                assert(v.sessions[k].id == a);
            }
        }
    }

    /// The sessions a broadcast command goes to: all of them, in order.
    pub fn broadcast(&self) -> (r: Vec<SessionId>)
        ensures
            r@ == ids(self@.sessions),
    {
        let mut r: Vec<SessionId> = Vec::new();
        let mut i: usize = 0;
        while i < self.sessions.len()
            invariant
                i <= self.sessions@.len(),
                r@ == ids(self.sessions@.take(i as int)),
            decreases self.sessions@.len() - i,
        {
            proof {
                lemma_take_push(self.sessions@, i as int);
                assert(ids(self.sessions@.take(i + 1)) =~= ids(self.sessions@.take(i as int)).push(
                    self.sessions@[i as int].id,
                ));
            }
            r.push(self.sessions[i].id);
            i = i + 1;
        }
        assert(self.sessions@.take(self.sessions@.len() as int) =~= self.sessions@);
        r
    }

    /// The sessions a command for the others goes to: all but the active one,
    /// in order.
    pub fn broadcast_others(&self) -> (r: Vec<SessionId>)
        ensures
            r@ == ids(self@.sessions).filter(not_active(self@.active)),
    {
        let ghost pred = not_active(self@.active);
        let mut r: Vec<SessionId> = Vec::new();
        let mut i: usize = 0;
        proof {
            crate::seq_util::lemma_filter_empty(ids(self.sessions@.take(0)), pred);
            assert(ids(self.sessions@.take(0)) =~= Seq::<SessionId>::empty());
        }
        while i < self.sessions.len()
            invariant
                i <= self.sessions@.len(),
                pred == not_active(self@.active),
                r@ == ids(self.sessions@.take(i as int)).filter(pred),
            decreases self.sessions@.len() - i,
        {
            proof {
                lemma_take_push(self.sessions@, i as int);
                assert(ids(self.sessions@.take(i + 1)) =~= ids(self.sessions@.take(i as int)).push(
                    self.sessions@[i as int].id,
                ));
                crate::seq_util::lemma_filter_push(
                    ids(self.sessions@.take(i as int)),
                    pred,
                    self.sessions@[i as int].id,
                );
            }
            let id = self.sessions[i].id;
            let is_active = match self.active_id {
                Some(a) => id == a,
                None => false,
            };
            if !is_active {
                r.push(id);
            }
            i = i + 1;
        }
        assert(self.sessions@.take(self.sessions@.len() as int) =~= self.sessions@);
        r
    }

    pub fn count(&self) -> (n: usize)
        ensures
            n == self@.sessions.len(),
    {
        self.sessions.len()
    }

    pub fn is_empty(&self) -> (b: bool)
        ensures
            b == (self@.sessions.len() == 0),
    {
        self.sessions.is_empty()
    }
}

} // verus!
