//! Session binding: the (principal, tenant, role) triple projected onto one
//! pooled connection's session-scoped configuration for the duration of a
//! request, and the statements that set and clear it.
//!
//! A connection must never serve a second request while still carrying a
//! prior request's binding, so the clear statement resets every value
//! unconditionally and runs on every exit path.

use vstd::prelude::*;

use crate::roles::WorkspaceRole;
use crate::sqlgen::Param;
use crate::sqlgen::ParamV;

verus! {

/// The triple a request projects onto its connection: tenant and role are
/// present together or absent together.
#[derive(Debug, Clone, Copy, PartialEq, Eq, Structural)]
pub struct SessionBinding {
    pub principal_id: u128,
    pub workspace_id: Option<u128>,
    pub role: Option<WorkspaceRole>,
}

impl SessionBinding {
    /// Tenant-scoped bindings carry a role; tenant-independent ones carry
    /// neither a tenant nor a role.
    pub open spec fn wf(self) -> bool {
        (self.workspace_id matches Some(_)) == (self.role matches Some(_))
    }
}

/// The session-scoped configuration of one pooled connection, as this
/// library tracks it: either clean or carrying one request's binding.
#[derive(Debug, Clone, Copy, PartialEq, Eq, Structural)]
pub struct ConnectionSession {
    pub binding: Option<SessionBinding>,
}

impl ConnectionSession {
    /// A connection fresh from the pool, carrying nothing.
    pub fn new() -> (c: Self)
        ensures
            c.binding matches None,
    {
        ConnectionSession { binding: None }
    }

    /// Projects a binding onto the connection as one atomic unit: after a
    /// successful bind the connection carries exactly this binding.
    pub fn bind(&mut self, b: SessionBinding)
        ensures
            final(self).binding == Some(b),
    {
        self.binding = Some(b);
    }

    /// Clears the binding unconditionally, whatever the connection carried.
    pub fn unbind(&mut self)
        ensures
            final(self).binding matches None,
    {
        self.binding = None;
    }
}

/// The role's name as the storage layer spells it.
pub open spec fn role_name_spec(r: WorkspaceRole) -> Seq<char> {
    match r {
        WorkspaceRole::Admin => "admin"@,
        WorkspaceRole::Member => "member"@,
        WorkspaceRole::Viewer => "viewer"@,
    }
}

pub fn role_name(r: WorkspaceRole) -> (s: String)
    ensures
        s@ == role_name_spec(r),
{
    match r {
        WorkspaceRole::Admin => "admin".to_owned(),
        WorkspaceRole::Member => "member".to_owned(),
        WorkspaceRole::Viewer => "viewer".to_owned(),
    }
}

/// Builds the statements that project and clear a session binding.
pub struct SessionContextBinder;

impl SessionContextBinder {
    /// The statements that set the three session values, to run inside one
    /// transaction so the connection never observes partial context: first
    /// the principal id, then the tenant id and role — both set, or both
    /// cleared when the binding is tenant-independent.
    pub fn bind_statements(binding: &SessionBinding) -> (r: Vec<(String, Vec<Param>)>)
        requires
            binding.wf(),
        ensures
            r@.len() == 2,
            r@[0].0@ == "SELECT set_config('app.current_user_id', $1, false)"@,
            r@[0].1@.len() == 1 && r@[0].1@[0]@ == ParamV::Id(binding.principal_id),
            match (binding.workspace_id, binding.role) {
                (Some(w), Some(ro)) => {
                    &&& r@[1].0@
                        == "SELECT set_config('app.current_workspace_id', $1, false), set_config('app.current_user_role', $2, false)"@
                    &&& r@[1].1@.len() == 2
                    &&& r@[1].1@[0]@ == ParamV::Id(w)
                    &&& r@[1].1@[1]@ == ParamV::Text(role_name_spec(ro))
                },
                _ => r@[1].0@
                    == "SELECT set_config('app.current_workspace_id', NULL, false), set_config('app.current_user_role', NULL, false)"@
                    && r@[1].1@.len() == 0,
            },
    {
        let mut stmts: Vec<(String, Vec<Param>)> = Vec::new();
        let mut user_params: Vec<Param> = Vec::new();
        user_params.push(Param::Id(binding.principal_id));
        stmts.push(
            ("SELECT set_config('app.current_user_id', $1, false)".to_owned(), user_params),
        );
        match (binding.workspace_id, binding.role) {
            (Some(w), Some(ro)) => {
                let mut ws_params: Vec<Param> = Vec::new();
                ws_params.push(Param::Id(w));
                ws_params.push(Param::Text(role_name(ro)));
                stmts.push(
                    (
                        "SELECT set_config('app.current_workspace_id', $1, false), set_config('app.current_user_role', $2, false)".to_owned(),
                        ws_params,
                    ),
                );
            },
            _ => {
                stmts.push(
                    (
                        "SELECT set_config('app.current_workspace_id', NULL, false), set_config('app.current_user_role', NULL, false)".to_owned(),
                        Vec::new(),
                    ),
                );
            },
        }
        stmts
    }

    /// The single statement that clears all three session values, run after
    /// the handler on every exit path before the connection returns to the
    /// pool.
    pub fn unbind_statement() -> (r: String)
        ensures
            r@ == "SELECT set_config('app.current_user_id', NULL, true), set_config('app.current_workspace_id', NULL, true), set_config('app.current_user_role', NULL, true)"@,
    {
        "SELECT set_config('app.current_user_id', NULL, true), set_config('app.current_workspace_id', NULL, true), set_config('app.current_user_role', NULL, true)"
            .to_owned()
    }
}

} // verus!
