//! Graded per-tenant roles and the pure permission gate.
//!
//! A principal holds at most one role within a tenant; the roles form the
//! total order `Viewer < Member < Admin`. An operation that requires a role
//! is permitted exactly when the held role is at least the required one.

use vstd::prelude::*;

verus! {

/// A role held by a principal within one tenant, ordered
/// `Viewer < Member < Admin`.
#[derive(Debug, Clone, Copy, PartialEq, Eq, Structural)]
pub enum WorkspaceRole {
    Admin,
    Member,
    Viewer,
}

impl WorkspaceRole {
    /// Position of the role in the total order: higher grants more.
    pub open spec fn rank(self) -> int {
        match self {
            WorkspaceRole::Viewer => 0,
            WorkspaceRole::Member => 1,
            WorkspaceRole::Admin => 2,
        }
    }
}

/// Pure mapping from (required role, held role) to allow/deny.
pub struct PermissionGate;

impl PermissionGate {
    /// Whether a principal holding `held` may perform an operation that
    /// requires `required`: exactly when `held` ranks at least as high.
    pub fn permits(required: WorkspaceRole, held: WorkspaceRole) -> (allowed: bool)
        ensures
            allowed == (held.rank() >= required.rank()),
    {
        match required {
            WorkspaceRole::Viewer => true,
            WorkspaceRole::Member => matches!(held, WorkspaceRole::Member | WorkspaceRole::Admin),
            WorkspaceRole::Admin => matches!(held, WorkspaceRole::Admin),
        }
    }
}

/// The order over roles is total: any two roles are comparable, and mutual
/// permission implies equality.
pub proof fn lemma_role_order_total(a: WorkspaceRole, b: WorkspaceRole)
    ensures
        a.rank() >= b.rank() || b.rank() >= a.rank(),
        (a.rank() >= b.rank() && b.rank() >= a.rank()) ==> a == b,
{
}

} // verus!
