//! General laws of the role relation, stated over the model that the
//! store's contracts use: the set of held (identity, tag) pairs.

use vstd::prelude::*;
use crate::roles::RoleStore;

verus! {

/// After a grant the pair is held, and after a subsequent revoke of the
/// same pair it is not. The premises are exactly what `RoleStore::grant`
/// and `RoleStore::revoke` ensure, and holding a pair is exactly what
/// `RoleStore::has_role` reports.
pub proof fn lemma_grant_then_revoke(
    s0: RoleStore,
    s1: RoleStore,
    s2: RoleStore,
    user: Seq<u8>,
    role: Seq<u8>,
)
    requires
        s1.role_set() == s0.role_set().insert((user, role)),
        s2.role_set() == s1.role_set().remove((user, role)),
    ensures
        s1.spec_has_role(user, role),
        !s2.spec_has_role(user, role),
{
    assert(s1.role_set().contains((user, role)));
    assert(!s2.role_set().contains((user, role)));
}

/// Granting an already-held pair and revoking an unheld pair leave the
/// role relation unchanged.
pub proof fn lemma_grant_revoke_idempotent(s: RoleStore, user: Seq<u8>, role: Seq<u8>)
    ensures
        s.spec_has_role(user, role) ==> s.role_set().insert((user, role)) == s.role_set(),
        !s.spec_has_role(user, role) ==> s.role_set().remove((user, role)) == s.role_set(),
{
    if s.spec_has_role(user, role) {
        assert(s.role_set().insert((user, role)) =~= s.role_set());
    } else {
        assert(s.role_set().remove((user, role)) =~= s.role_set());
    }
}

} // verus!
