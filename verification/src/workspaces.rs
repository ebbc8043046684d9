//! Workspace request payloads and the workspace-level permission check a
//! handler runs before a role-sensitive operation.

use vstd::prelude::*;

use crate::errors::AppError;
use crate::ids::uuid_of;
use crate::roles::PermissionGate;
use crate::roles::WorkspaceRole;
use crate::tenant::first_role;
use crate::tenant::TenantAccessResolver;

verus! {

/// The tenant selector of a request: its absence, a malformed value, and a
/// well-formed workspace id are three distinct outcomes. Whether a
/// well-formed id names a known tenant is the resolver's question, not
/// this one's.
pub fn parse_workspace_selector(header: Option<&str>) -> (r: Result<Option<u128>, AppError>)
    ensures
        match header {
            None => r == Ok::<Option<u128>, AppError>(None),
            Some(s) => match uuid_of(s@) {
                Some(id) => r == Ok::<Option<u128>, AppError>(Some(id)),
                None => r matches Err(AppError::BadRequest(m)) && m@
                    == "Invalid workspace ID format"@,
            },
        },
{
    match header {
        None => Ok(None),
        Some(s) => match crate::ids::parse_uuid(s) {
            Some(id) => Ok(Some(id)),
            None => Err(AppError::BadRequest("Invalid workspace ID format".to_owned())),
        },
    }
}

/// Payload for creating a workspace.
#[derive(Debug, Clone)]
pub struct CreateWorkspaceRequest {
    pub name: String,
    pub description: Option<String>,
}

/// Payload for a partial update of a workspace.
#[derive(Debug, Clone)]
pub struct UpdateWorkspaceRequest {
    pub name: Option<String>,
    pub description: Option<String>,
}

/// Payload for granting a principal a role in a workspace.
#[derive(Debug, Clone, Copy, PartialEq, Eq, Structural)]
pub struct AddUserToWorkspaceRequest {
    pub user_id: u128,
    pub role: WorkspaceRole,
}

/// Payload for changing a member's role.
#[derive(Debug, Clone, Copy, PartialEq, Eq, Structural)]
pub struct UpdateUserRoleRequest {
    pub role: WorkspaceRole,
}

/// Whether the caller holds `required_role` or higher in the workspace:
/// true exactly when the membership relation carries the pair with a role
/// ranking at least as high; a caller outside the workspace is never
/// permitted.
pub fn check_workspace_permission(
    resolver: &TenantAccessResolver,
    workspace_id: u128,
    user_id: u128,
    required_role: WorkspaceRole,
) -> (r: bool)
    ensures
        r == match first_role(resolver.memberships@, user_id, workspace_id) {
            Some(role) => role.rank() >= required_role.rank(),
            None => false,
        },
{
    match resolver.resolve(user_id, workspace_id) {
        Some(role) => PermissionGate::permits(required_role, role),
        None => false,
    }
}

} // verus!
