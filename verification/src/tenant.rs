//! Tenant access resolution: the single authoritative lookup of a
//! principal's role within a requested tenant, against the membership
//! relation as the storage layer reports it for this request.

use vstd::prelude::*;

use crate::roles::WorkspaceRole;

verus! {

/// One row of the membership relation.
#[derive(Debug, Clone, Copy, PartialEq, Eq, Structural)]
pub struct Membership {
    pub user_id: u128,
    pub workspace_id: u128,
    pub role: WorkspaceRole,
}

/// The role of the first membership row carrying the pair, or nothing when
/// no row does.
pub open spec fn first_role(ms: Seq<Membership>, user: u128, workspace: u128) -> Option<
    WorkspaceRole,
>
    decreases ms.len(),
{
    if ms.len() == 0 {
        None
    } else if ms.first().user_id == user && ms.first().workspace_id == workspace {
        Some(ms.first().role)
    } else {
        first_role(ms.drop_first(), user, workspace)
    }
}

/// A pair absent from the relation resolves to nothing, and a pair present
/// resolves to something: `first_role` is `None` exactly when no row
/// carries the pair.
pub proof fn lemma_first_role_absent(ms: Seq<Membership>, user: u128, workspace: u128)
    ensures
        (first_role(ms, user, workspace) matches None) <==> (forall|i: int|
            0 <= i < ms.len() ==> !((#[trigger] ms[i]).user_id == user && ms[i].workspace_id
                == workspace)),
    decreases ms.len(),
{
    if ms.len() > 0 {
        lemma_first_role_absent(ms.drop_first(), user, workspace);
        assert forall|i: int| 1 <= i < ms.len() implies ms.drop_first()[i - 1] == ms[i] by {}
    }
}

/// Resolves a principal's role within a tenant by one lookup against the
/// membership relation handed to it for this request; never cached across
/// requests, so role changes take effect on the next request.
pub struct TenantAccessResolver {
    pub memberships: Vec<Membership>,
}

impl TenantAccessResolver {
    pub fn new(memberships: Vec<Membership>) -> (r: Self)
        ensures
            r.memberships@ == memberships@,
    {
        TenantAccessResolver { memberships }
    }

    /// The caller's role in the requested tenant, or `None` when no
    /// membership row carries the pair.
    pub fn resolve(&self, principal_id: u128, tenant_id: u128) -> (r: Option<WorkspaceRole>)
        ensures
            r == first_role(self.memberships@, principal_id, tenant_id),
    {
        let mut i: usize = 0;
        proof {
            assert(self.memberships@.skip(0) =~= self.memberships@);
        }
        while i < self.memberships.len()
            invariant
                0 <= i <= self.memberships@.len(),
                first_role(self.memberships@, principal_id, tenant_id) == first_role(
                    self.memberships@.skip(i as int),
                    principal_id,
                    tenant_id,
                ),
            decreases self.memberships@.len() - i,
        {
            let m = &self.memberships[i];
            proof {
                assert(self.memberships@.skip(i as int).first() == self.memberships@[i as int]);
                assert(self.memberships@.skip(i as int).drop_first() =~= self.memberships@.skip(
                    i + 1,
                ));
            }
            if m.user_id == principal_id && m.workspace_id == tenant_id {
                return Some(m.role);
            }
            i = i + 1;
        }
        proof {
            assert(self.memberships@.skip(self.memberships@.len() as int)
                =~= Seq::<Membership>::empty());
        }
        None
    }
}

} // verus!
