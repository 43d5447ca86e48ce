//! Role storage: the relation from subject identity to the set of held
//! role tags. Grants and revocations are idempotent, and the relation has
//! no duplicate (identity, tag) pairs.

use vstd::prelude::*;

verus! {

/// One held role: a subject identity paired with a role tag.
#[derive(Clone, Debug)]
pub struct RoleGrant {
    pub user: Vec<u8>,
    pub role: Vec<u8>,
}

/// True when the entry is exactly the (identity, tag) pair.
pub open spec fn entry_matches(e: RoleGrant, user: Seq<u8>, role: Seq<u8>) -> bool {
    e.user@ == user && e.role@ == role
}

/// The relation from identities to held role tags, stored as a duplicate-free
/// list of pairs. The set of roles a subject holds is unordered.
pub struct RoleStore {
    pub entries: Vec<RoleGrant>,
}

impl RoleStore {
    /// No (identity, tag) pair occurs twice.
    pub open spec fn wf(self) -> bool {
        forall|i: int, j: int|
            0 <= i < j < self.entries@.len() ==> !(#[trigger] self.entries@[i].user@
                == #[trigger] self.entries@[j].user@ && self.entries@[i].role@
                == self.entries@[j].role@)
    }

    /// Whether `user` holds the role tag `role`.
    pub open spec fn spec_has_role(self, user: Seq<u8>, role: Seq<u8>) -> bool {
        exists|i: int|
            0 <= i < self.entries@.len() && #[trigger] entry_matches(self.entries@[i], user, role)
    }

    /// The whole relation as a set of (identity, tag) pairs.
    pub open spec fn role_set(self) -> Set<(Seq<u8>, Seq<u8>)> {
        Set::new(|p: (Seq<u8>, Seq<u8>)| self.spec_has_role(p.0, p.1))
    }

    /// An empty store: nobody holds any role.
    pub fn new() -> (s: RoleStore)
        ensures
            s.wf(),
            s.role_set() == Set::<(Seq<u8>, Seq<u8>)>::empty(),
            forall|u: Seq<u8>, t: Seq<u8>| !s.spec_has_role(u, t),
    {
        let s = RoleStore { entries: Vec::new() };
        assert(s.role_set() =~= Set::<(Seq<u8>, Seq<u8>)>::empty());
        s
    }

    /// The index of the entry holding the pair, if the pair is held.
    fn find(&self, user: &Vec<u8>, role: &Vec<u8>) -> (r: Option<usize>)
        ensures
            match r {
                Some(i) => i < self.entries@.len() && entry_matches(
                    self.entries@[i as int],
                    user@,
                    role@,
                ),
                None => !self.spec_has_role(user@, role@),
            },
    {
        let n = self.entries.len();
        let mut i: usize = 0;
        while i < n
            invariant
                n == self.entries@.len(),
                i <= n,
                forall|k: int|
                    0 <= k < i ==> !#[trigger] entry_matches(self.entries@[k], user@, role@),
            decreases n - i,
        {
            let e = &self.entries[i];
            if crate::bytes::bytes_eq(&e.user, user) && crate::bytes::bytes_eq(&e.role, role) {
                return Some(i);
            }
            i += 1;
        }
        assert(!self.spec_has_role(user@, role@)) by {
            if self.spec_has_role(user@, role@) {
                let k = choose|k: int|
                    0 <= k < self.entries@.len() && #[trigger] entry_matches(
                        self.entries@[k],
                        user@,
                        role@,
                    );
                assert(!entry_matches(self.entries@[k], user@, role@));
            }
        }
        None
    }

    /// Whether `user` currently holds the role tag `role`.
    pub fn has_role(&self, user: &Vec<u8>, role: &Vec<u8>) -> (r: bool)
        ensures
            r == self.spec_has_role(user@, role@),
    {
        match self.find(user, role) {
            Some(_) => {
                assert(self.spec_has_role(user@, role@));
                true
            },
            None => false,
        }
    }

    /// Insert the pair. A pair already held is left exactly as it was.
    pub fn grant(&mut self, user: Vec<u8>, role: Vec<u8>)
        requires
            old(self).wf(),
        ensures
            final(self).wf(),
            final(self).role_set() == old(self).role_set().insert((user@, role@)),
            final(self).spec_has_role(user@, role@),
            old(self).spec_has_role(user@, role@) ==> *final(self) == *old(self),
    {
        match self.find(&user, &role) {
            Some(_) => {
                assert(self.spec_has_role(user@, role@));
                assert(self.role_set() =~= self.role_set().insert((user@, role@)));
            },
            None => {
                let ghost prev = *self;
                let ghost uview = user@;
                let ghost rview = role@;
                self.entries.push(RoleGrant { user, role });
                proof {
                    let n = prev.entries@.len();
                    assert(self.entries@ == prev.entries@.push(
                        RoleGrant { user, role },
                    ));  // from push's contract
                    assert(entry_matches(self.entries@[n as int], uview, rview));
                    assert(self.spec_has_role(uview, rview));
                    // the pair was absent, so no earlier entry matches it
                    assert forall|k: int| 0 <= k < n implies !entry_matches(
                        prev.entries@[k],
                        uview,
                        rview,
                    ) by {
                        if entry_matches(prev.entries@[k], uview, rview) {
                            assert(prev.spec_has_role(uview, rview));
                        }
                    }
                    // no duplicate pair arises
                    assert forall|i: int, j: int| 0 <= i < j < self.entries@.len() implies !(
                    #[trigger] self.entries@[i].user@ == #[trigger] self.entries@[j].user@
                        && self.entries@[i].role@ == self.entries@[j].role@) by {
                        if self.entries@[i].user@ == self.entries@[j].user@
                            && self.entries@[i].role@ == self.entries@[j].role@ {
                            if j < n {
                            } else {
                                assert(entry_matches(prev.entries@[i], uview, rview));
                            }
                        }
                    }
                    // membership after the insert, pair by pair
                    assert forall|u: Seq<u8>, t: Seq<u8>| #[trigger]
                        self.spec_has_role(u, t) == (prev.spec_has_role(u, t) || (u == uview && t
                        == rview)) by {
                        if self.spec_has_role(u, t) {
                            let k = choose|k: int|
                                0 <= k < self.entries@.len() && #[trigger] entry_matches(
                                    self.entries@[k],
                                    u,
                                    t,
                                );
                            if k < n {
                                assert(entry_matches(prev.entries@[k], u, t));
                                assert(prev.spec_has_role(u, t));
                            }
                        }
                        if prev.spec_has_role(u, t) {
                            let k = choose|k: int|
                                0 <= k < prev.entries@.len() && #[trigger] entry_matches(
                                    prev.entries@[k],
                                    u,
                                    t,
                                );
                            assert(entry_matches(self.entries@[k], u, t));
                            assert(self.spec_has_role(u, t));
                        }
                        if u == uview && t == rview {
                            assert(self.spec_has_role(u, t));
                        }
                    }
                    assert(self.role_set() =~= prev.role_set().insert((uview, rview)));
                }
            },
        }
    }

    /// Remove the pair. A pair not held leaves the store exactly as it was.
    pub fn revoke(&mut self, user: &Vec<u8>, role: &Vec<u8>)
        requires
            old(self).wf(),
        ensures
            final(self).wf(),
            final(self).role_set() == old(self).role_set().remove((user@, role@)),
            !final(self).spec_has_role(user@, role@),
            !old(self).spec_has_role(user@, role@) ==> *final(self) == *old(self),
    {
        match self.find(user, role) {
            None => {
                assert(self.role_set() =~= self.role_set().remove((user@, role@))) by {
                    assert(!self.spec_has_role(user@, role@));
                }
            },
            Some(i) => {
                let ghost prev = *self;
                let ghost idx = i as int;
                self.entries.remove(i);
                proof {
                    let n = prev.entries@.len();
                    assert(self.entries@ == prev.entries@.remove(idx));
                    // indexing through the removal
                    assert(forall|k: int|
                        0 <= k < idx ==> #[trigger] self.entries@[k] == prev.entries@[k]);
                    assert(forall|k: int|
                        idx <= k < n - 1 ==> #[trigger] self.entries@[k] == prev.entries@[k + 1]);
                    // only the entry at idx held the pair (no duplicates)
                    assert forall|k: int| 0 <= k < n && k != idx implies !entry_matches(
                        prev.entries@[k],
                        user@,
                        role@,
                    ) by {
                        if entry_matches(prev.entries@[k], user@, role@) {
                            if k < idx {
                                assert(prev.entries@[k].user@ == prev.entries@[idx].user@
                                    && prev.entries@[k].role@ == prev.entries@[idx].role@);
                            } else {
                                assert(prev.entries@[idx].user@ == prev.entries@[k].user@
                                    && prev.entries@[idx].role@ == prev.entries@[k].role@);
                            }
                        }
                    }
                    // the pair is gone
                    assert(!self.spec_has_role(user@, role@)) by {
                        if self.spec_has_role(user@, role@) {
                            let k = choose|k: int|
                                0 <= k < self.entries@.len() && #[trigger] entry_matches(
                                    self.entries@[k],
                                    user@,
                                    role@,
                                );
                            if k < idx {
                                assert(entry_matches(prev.entries@[k], user@, role@));
                            } else {
                                assert(entry_matches(prev.entries@[k + 1], user@, role@));
                            }
                        }
                    }
                    // every other pair is kept
                    assert forall|u: Seq<u8>, t: Seq<u8>| #[trigger]
                        self.spec_has_role(u, t) == (prev.spec_has_role(u, t) && !(u == user@ && t
                        == role@)) by {
                        if self.spec_has_role(u, t) {
                            let k = choose|k: int|
                                0 <= k < self.entries@.len() && #[trigger] entry_matches(
                                    self.entries@[k],
                                    u,
                                    t,
                                );
                            if k < idx {
                                assert(entry_matches(prev.entries@[k], u, t));
                            } else {
                                assert(entry_matches(prev.entries@[k + 1], u, t));
                            }
                            assert(prev.spec_has_role(u, t));
                            assert(!(u == user@ && t == role@)) by {
                                if u == user@ && t == role@ {
                                    assert(self.spec_has_role(user@, role@));
                                }
                            }
                        }
                        if prev.spec_has_role(u, t) && !(u == user@ && t == role@) {
                            let k = choose|k: int|
                                0 <= k < prev.entries@.len() && #[trigger] entry_matches(
                                    prev.entries@[k],
                                    u,
                                    t,
                                );
                            assert(k != idx) by {
                                if k == idx {
                                    assert(entry_matches(prev.entries@[idx], user@, role@));
                                }
                            }
                            if k < idx {
                                assert(entry_matches(self.entries@[k], u, t));
                            } else {
                                assert(entry_matches(self.entries@[k - 1], u, t));
                            }
                            assert(self.spec_has_role(u, t));
                        }
                    }
                    // no duplicates survive the removal
                    assert forall|i2: int, j2: int| 0 <= i2 < j2 < self.entries@.len() implies !(
                    #[trigger] self.entries@[i2].user@ == #[trigger] self.entries@[j2].user@
                        && self.entries@[i2].role@ == self.entries@[j2].role@) by {
                        let pi = if i2 < idx { i2 } else { i2 + 1 };
                        let pj = if j2 < idx { j2 } else { j2 + 1 };
                        assert(self.entries@[i2] == prev.entries@[pi]);
                        assert(self.entries@[j2] == prev.entries@[pj]);
                        assert(0 <= pi < pj < n);
                    }
                    assert(self.role_set() =~= prev.role_set().remove((user@, role@)));
                }
            },
        }
    }
}

} // verus!
