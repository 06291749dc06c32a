use vstd::prelude::*;
use crate::session::{Session, SessionModel};

verus! {

/// The mapping from room identifier to that room's exclusively owned
/// session. Entries are created on a successful join, handed out one at
/// a time, and discarded on leave; rooms never share an entry, so work
/// on one room can never touch another room's state.
///
/// The surrounding program serializes access to one room's session with
/// that session's own lock; this value models the map those locks guard.
pub struct Registry {
    sessions: Vec<Session>,
}

impl Registry {
    /// There is an entry for `room`.
    pub closed spec fn has(self, room: u64) -> bool {
        exists|i: int|
            0 <= i < self.sessions@.len() && (#[trigger] self.sessions@[i]).room_id == room
    }

    /// Index of `room`'s entry; meaningful only when `has(room)`.
    pub closed spec fn idx_of(self, room: u64) -> int {
        choose|i: int|
            0 <= i < self.sessions@.len() && (#[trigger] self.sessions@[i]).room_id == room
    }

    /// The session of `room`; meaningful only when `has(room)`.
    pub closed spec fn at(self, room: u64) -> Session {
        self.sessions@[self.idx_of(room)]
    }

    /// Registry invariant: one entry per room, each well formed and
    /// keyed by its own room identifier.
    pub closed spec fn wf(self) -> bool {
        &&& forall|i: int, j: int|
            0 <= i < j < self.sessions@.len()
                ==> (#[trigger] self.sessions@[i]).room_id != (
            #[trigger] self.sessions@[j]).room_id
        &&& forall|i: int| 0 <= i < self.sessions@.len() ==> (#[trigger] self.sessions@[i]).wf()
    }

    /// Every entry the registry holds is a well-formed session.
    pub proof fn lemma_at_wf(self, room: u64)
        requires
            self.wf(),
            self.has(room),
        ensures
            self.at(room).wf(),
            self.at(room).room_id == room,
    {
    }

    proof fn lemma_at_index(self, i: int)
        requires
            self.wf(),
            0 <= i < self.sessions@.len(),
        ensures
            self.has(self.sessions@[i].room_id),
            self.idx_of(self.sessions@[i].room_id) == i,
            self.at(self.sessions@[i].room_id) == self.sessions@[i],
    {
        let room = self.sessions@[i].room_id;
        assert(self.has(room));
        let k = self.idx_of(room);
        if k < i {
            assert(self.sessions@[k].room_id != self.sessions@[i].room_id);
        } else if i < k {
            assert(self.sessions@[i].room_id != self.sessions@[k].room_id);
        }
    }

    /// An empty registry: no room has an entry.
    pub fn new() -> (r: Registry)
        ensures
            r.wf(),
            forall|room: u64| !r.has(room),
    {
        Registry { sessions: Vec::new() }
    }

    /// Non-blocking lookup: the session of `room`, if one exists.
    pub fn get_or_none(&self, room: u64) -> (r: Option<&Session>)
        requires
            self.wf(),
        ensures
            (match r {
                Some(s) => self.has(room) && *s == self.at(room),
                None => !self.has(room),
            }),
    {
        let n = self.sessions.len();
        let mut i: usize = 0;
        while i < n
            invariant
                n == self.sessions@.len(),
                i <= n,
                self.wf(),
                forall|j: int| 0 <= j < i ==> (#[trigger] self.sessions@[j]).room_id != room,
            decreases n - i,
        {
            if self.sessions[i].room_id == room {
                proof {
                    self.lemma_at_index(i as int);
                }
                return Some(&self.sessions[i]);
            }
            i = i + 1;
        }
        None
    }

    /// Guarantees an entry for `room`: the existing session is kept
    /// untouched, else a fresh default one is filed. Never creates a
    /// second entry for a room that has one.
    pub fn get_or_create(&mut self, room: u64)
        requires
            old(self).wf(),
        ensures
            final(self).wf(),
            final(self).has(room),
            old(self).has(room) ==> *final(self) == *old(self),
            !old(self).has(room) ==> final(self).at(room)@ == SessionModel::init(room),
            forall|r2: u64| r2 != room ==> final(self).has(r2) == old(self).has(r2),
            forall|r2: u64|
                r2 != room && old(self).has(r2) ==> final(self).at(r2) == old(self).at(r2),
    {
        if self.get_or_none(room).is_some() {
            return ;
        }
        self.insert(Session::new(room));
    }

    /// Detaches and returns `room`'s session, leaving no entry for it.
    /// Every other room's entry is untouched.
    #[verifier::rlimit(50)]
    pub fn remove(&mut self, room: u64) -> (r: Option<Session>)
        requires
            old(self).wf(),
        ensures
            final(self).wf(),
            !final(self).has(room),
            (match r {
                Some(s) => old(self).has(room) && s == old(self).at(room),
                None => !old(self).has(room) && *final(self) == *old(self),
            }),
            forall|r2: u64| r2 != room ==> final(self).has(r2) == old(self).has(r2),
            forall|r2: u64|
                r2 != room && old(self).has(r2) ==> final(self).at(r2) == old(self).at(r2),
    {
        let n = self.sessions.len();
        let mut i: usize = 0;
        while i < n
            invariant
                *self == *old(self),
                n == self.sessions@.len(),
                i <= n,
                self.wf(),
                forall|j: int| 0 <= j < i ==> (#[trigger] self.sessions@[j]).room_id != room,
            decreases n - i,
        {
            if self.sessions[i].room_id == room {
                proof {
                    self.lemma_at_index(i as int);
                }
                let s = self.sessions.remove(i);
                proof {
                    let pre = old(self).sessions@;
                    let post = self.sessions@;
                    pre.remove_ensures(i as int);
                    assert(forall|k: int|
                        0 <= k < post.len() ==> post[k] == (if k < i as int {
                            pre[k]
                        } else {
                            pre[k + 1]
                        }));
                    assert(self.wf());
                    assert(!self.has(room)) by {
                        if self.has(room) {
                            let k = choose|k: int|
                                0 <= k < post.len() && (#[trigger] post[k]).room_id == room;
                            if k < i as int {
                                assert(pre[k].room_id == room);
                            } else {
                                assert(pre[k + 1].room_id == room);
                            }
                        }
                    }
                    assert forall|r2: u64| r2 != room implies self.has(r2) == old(self).has(
                        r2,
                    ) by {
                        if old(self).has(r2) {
                            let j = old(self).idx_of(r2);
                            old(self).lemma_at_index(j);
                            if j < i as int {
                                self.lemma_at_index(j);
                            } else {
                                self.lemma_at_index(j - 1);
                            }
                        }
                        if self.has(r2) {
                            let k = self.idx_of(r2);
                            self.lemma_at_index(k);
                            if k < i as int {
                                old(self).lemma_at_index(k);
                            } else {
                                old(self).lemma_at_index(k + 1);
                            }
                        }
                    }
                    assert forall|r2: u64| r2 != room && old(self).has(r2) implies self.at(r2)
                        == old(self).at(r2) by {
                        let j = old(self).idx_of(r2);
                        old(self).lemma_at_index(j);
                        if j < i as int {
                            assert(post[j] == pre[j]);
                            self.lemma_at_index(j);
                        } else {
                            assert(post[j - 1] == pre[j]);
                            self.lemma_at_index(j - 1);
                        }
                    }
                }
                return Some(s);
            }
            i = i + 1;
        }
        None
    }

    /// Files a session under its own room identifier, which must be free.
    /// Every other room's entry is untouched.
    pub fn insert(&mut self, s: Session)
        requires
            old(self).wf(),
            s.wf(),
            !old(self).has(s.room_id),
        ensures
            final(self).wf(),
            final(self).has(s.room_id),
            final(self).at(s.room_id) == s,
            forall|r2: u64| r2 != s.room_id ==> final(self).has(r2) == old(self).has(r2),
            forall|r2: u64|
                r2 != s.room_id && old(self).has(r2) ==> final(self).at(r2) == old(self).at(r2),
    {
        let ghost room = s.room_id;
        let ghost n = self.sessions@.len() as int;
        self.sessions.push(s);
        proof {
            let pre = old(self).sessions@;
            let post = self.sessions@;
            assert(forall|k: int| 0 <= k < n ==> post[k] == pre[k]);
            assert(post[n] == s);
            assert(self.wf()) by {
                assert forall|i: int, j: int| 0 <= i < j < post.len() implies post[i].room_id
                    != post[j].room_id by {
                    if j == n {
                        old(self).lemma_at_index(i);
                    }
                }
            }
            self.lemma_at_index(n);
            assert forall|r2: u64| r2 != room implies self.has(r2) == old(self).has(r2) by {
                if old(self).has(r2) {
                    let j = old(self).idx_of(r2);
                    old(self).lemma_at_index(j);
                    self.lemma_at_index(j);
                }
                if self.has(r2) {
                    let k = self.idx_of(r2);
                    self.lemma_at_index(k);
                    old(self).lemma_at_index(k);
                }
            }
            assert forall|r2: u64| r2 != room && old(self).has(r2) implies self.at(r2) == old(
                self,
            ).at(r2) by {
                let j = old(self).idx_of(r2);
                old(self).lemma_at_index(j);
                self.lemma_at_index(j);
            }
        }
    }
}

/// `post` differs from `pre` in at most `room`'s entry: what one room's
/// commands do to the registry, seen from every other room.
pub open spec fn same_except(pre: Registry, post: Registry, room: u64) -> bool {
    &&& forall|r2: u64| r2 != room ==> post.has(r2) == pre.has(r2)
    &&& forall|r2: u64| r2 != room && pre.has(r2) ==> post.at(r2) == pre.at(r2)
}

} // verus!
