use tenantcore::roles::PermissionGate;
use tenantcore::roles::WorkspaceRole;

#[test]
fn member_required_viewer_held_is_denied() {
    assert_eq!(PermissionGate::permits(WorkspaceRole::Member, WorkspaceRole::Viewer), false);
}

#[test]
fn viewer_required_admin_held_is_allowed() {
    assert!(PermissionGate::permits(WorkspaceRole::Viewer, WorkspaceRole::Admin));
}

#[test]
fn admin_required_admin_held_is_allowed() {
    assert!(PermissionGate::permits(WorkspaceRole::Admin, WorkspaceRole::Admin));
}

#[test]
fn viewer_is_weakest_and_admin_strongest() {
    assert!(PermissionGate::permits(WorkspaceRole::Viewer, WorkspaceRole::Viewer));
    assert!(PermissionGate::permits(WorkspaceRole::Viewer, WorkspaceRole::Member));
    assert!(!PermissionGate::permits(WorkspaceRole::Admin, WorkspaceRole::Viewer));
    assert!(!PermissionGate::permits(WorkspaceRole::Admin, WorkspaceRole::Member));
    assert!(PermissionGate::permits(WorkspaceRole::Member, WorkspaceRole::Member));
    assert!(PermissionGate::permits(WorkspaceRole::Member, WorkspaceRole::Admin));
}
