use tenantcore::authority::ConnEvent;
use tenantcore::authority::Outcome;
use tenantcore::authority::RequestAuthority;
use tenantcore::errors::AuthError;
use tenantcore::errors::Rejection;
use tenantcore::roles::WorkspaceRole;
use tenantcore::session::ConnectionSession;
use tenantcore::session::SessionBinding;
use tenantcore::session::SessionContextBinder;
use tenantcore::sqlgen::Param;
use tenantcore::tenant::Membership;
use tenantcore::tenant::TenantAccessResolver;
use tenantcore::token::TokenCodec;
use tenantcore::errors::AppError;
use tenantcore::workspaces::check_workspace_permission;
use tenantcore::workspaces::parse_workspace_selector;

const SECRET: &[u8] = b"test-signing-secret";
const USER: u128 = 7;
const TENANT: u128 = 40;
const OTHER_TENANT: u128 = 41;

fn issue_header(sub_uuid: u128, exp: u64) -> String {
    let sub = uuid::Uuid::from_u128(sub_uuid).to_string();
    let mut claims = serde_json::Map::new();
    claims.insert("sub".to_string(), serde_json::Value::String(sub));
    claims.insert("exp".to_string(), serde_json::Value::Number(serde_json::Number::from(exp)));
    claims.insert("iat".to_string(), serde_json::Value::Number(serde_json::Number::from(1u64)));
    let token = jsonwebtoken::encode(
        &jsonwebtoken::Header::default(),
        &serde_json::Value::Object(claims),
        &jsonwebtoken::EncodingKey::from_secret(SECRET),
    )
    .unwrap();
    let mut h = String::from("Bearer ");
    h.push_str(&token);
    h
}

fn authority_with(memberships: Vec<Membership>) -> RequestAuthority {
    RequestAuthority::new(TokenCodec::new(SECRET.to_vec()), TenantAccessResolver::new(memberships))
}

fn member_row() -> Membership {
    Membership { user_id: USER, workspace_id: TENANT, role: WorkspaceRole::Member }
}

#[test]
fn resolver_returns_absent_for_missing_pairs() {
    let resolver = TenantAccessResolver::new(vec![member_row()]);
    assert!(resolver.resolve(USER, OTHER_TENANT).is_none());
    assert!(resolver.resolve(USER + 1, TENANT).is_none());
    assert!(matches!(resolver.resolve(USER, TENANT), Some(WorkspaceRole::Member)));
}

#[test]
fn absent_membership_rejects_and_never_binds() {
    let authority = authority_with(vec![member_row()]);
    let header = issue_header(USER, 2_000);
    let mut conn = ConnectionSession::new();

    let (outcome, trace) = authority.process_request(
        &mut conn,
        Some(header.as_str()),
        Some(OTHER_TENANT),
        true,
        1_000,
        true,
        true,
    );
    assert!(matches!(outcome, Outcome::Rejected(Rejection::NoTenantAccess)));
    assert!(trace.is_empty());
    assert!(!trace.contains(&ConnEvent::Bind));
}

#[test]
fn member_of_the_tenant_is_bound_and_completes() {
    let authority = authority_with(vec![member_row()]);
    let header = issue_header(USER, 2_000);
    let mut conn = ConnectionSession::new();

    let binding = authority
        .authorize(Some(header.as_str()), Some(TENANT), true, 1_000)
        .unwrap();
    assert_eq!(binding.principal_id, USER);
    assert_eq!(binding.workspace_id, Some(TENANT));
    assert!(matches!(binding.role, Some(WorkspaceRole::Member)));

    let (outcome, trace) = authority.process_request(
        &mut conn,
        Some(header.as_str()),
        Some(TENANT),
        true,
        1_000,
        true,
        true,
    );
    assert!(matches!(outcome, Outcome::Completed(true)));
    assert_eq!(trace, vec![ConnEvent::Bind, ConnEvent::Handler(true), ConnEvent::Unbind]);
}

#[test]
fn failing_handler_still_unbinds() {
    let authority = authority_with(vec![member_row()]);
    let header = issue_header(USER, 2_000);
    let mut conn = ConnectionSession::new();

    // The injected handler always errors; the unbind must still run.
    let (outcome, trace) = authority.process_request(
        &mut conn,
        Some(header.as_str()),
        Some(TENANT),
        true,
        1_000,
        true,
        false,
    );
    assert!(matches!(outcome, Outcome::Completed(false)));
    let binds = trace.iter().filter(|e| matches!(e, ConnEvent::Bind)).count();
    let unbinds = trace.iter().filter(|e| matches!(e, ConnEvent::Unbind)).count();
    assert_eq!(binds, unbinds);
    assert_eq!(trace, vec![ConnEvent::Bind, ConnEvent::Handler(false), ConnEvent::Unbind]);
}

#[test]
fn failed_bind_aborts_before_the_handler() {
    let authority = authority_with(vec![member_row()]);
    let header = issue_header(USER, 2_000);
    let mut conn = ConnectionSession::new();

    let (outcome, trace) = authority.process_request(
        &mut conn,
        Some(header.as_str()),
        Some(TENANT),
        true,
        1_000,
        false,
        true,
    );
    assert!(matches!(outcome, Outcome::Rejected(Rejection::Internal)));
    assert!(trace.is_empty());
}

#[test]
fn missing_credential_rejects_as_unauthenticated() {
    let authority = authority_with(vec![member_row()]);
    let mut conn = ConnectionSession::new();
    let (outcome, trace) =
        authority.process_request(&mut conn, None, Some(TENANT), true, 1_000, true, true);
    assert!(matches!(
        outcome,
        Outcome::Rejected(Rejection::Unauthenticated(AuthError::MissingToken))
    ));
    assert!(trace.is_empty());
}

#[test]
fn tenant_independent_route_binds_without_a_tenant() {
    let authority = authority_with(vec![member_row()]);
    let header = issue_header(USER, 2_000);
    let binding = authority.authorize(Some(header.as_str()), None, false, 1_000).unwrap();
    assert_eq!(binding.principal_id, USER);
    assert!(binding.workspace_id.is_none());
    assert!(binding.role.is_none());
}

#[test]
fn tenant_required_route_rejects_an_unscoped_request() {
    let authority = authority_with(vec![member_row()]);
    let header = issue_header(USER, 2_000);
    let r = authority.authorize(Some(header.as_str()), None, true, 1_000);
    assert!(matches!(r, Err(Rejection::NoTenantAccess)));
}

#[test]
fn connection_session_bind_then_unbind_leaves_it_clean() {
    let mut conn = ConnectionSession::new();
    assert!(conn.binding.is_none());
    let binding = SessionBinding {
        principal_id: USER,
        workspace_id: Some(TENANT),
        role: Some(WorkspaceRole::Admin),
    };
    conn.bind(binding);
    assert_eq!(conn.binding, Some(binding));
    conn.unbind();
    assert!(conn.binding.is_none());
}

#[test]
fn bind_statements_set_all_three_values_for_a_scoped_binding() {
    let binding = SessionBinding {
        principal_id: USER,
        workspace_id: Some(TENANT),
        role: Some(WorkspaceRole::Member),
    };
    let stmts = SessionContextBinder::bind_statements(&binding);
    assert_eq!(stmts.len(), 2);
    assert_eq!(stmts[0].0, "SELECT set_config('app.current_user_id', $1, false)");
    assert!(matches!(stmts[0].1[0], Param::Id(v) if v == USER));
    assert_eq!(
        stmts[1].0,
        "SELECT set_config('app.current_workspace_id', $1, false), set_config('app.current_user_role', $2, false)"
    );
    assert!(matches!(stmts[1].1[0], Param::Id(v) if v == TENANT));
    assert!(matches!(&stmts[1].1[1], Param::Text(s) if s == "member"));
}

#[test]
fn bind_statements_clear_tenant_values_for_an_unscoped_binding() {
    let binding = SessionBinding { principal_id: USER, workspace_id: None, role: None };
    let stmts = SessionContextBinder::bind_statements(&binding);
    assert_eq!(stmts.len(), 2);
    assert_eq!(
        stmts[1].0,
        "SELECT set_config('app.current_workspace_id', NULL, false), set_config('app.current_user_role', NULL, false)"
    );
    assert!(stmts[1].1.is_empty());
}

#[test]
fn unbind_statement_clears_every_value_unconditionally() {
    assert_eq!(
        SessionContextBinder::unbind_statement(),
        "SELECT set_config('app.current_user_id', NULL, true), set_config('app.current_workspace_id', NULL, true), set_config('app.current_user_role', NULL, true)"
    );
}

#[test]
fn workspace_permission_requires_membership_and_rank() {
    let resolver = TenantAccessResolver::new(vec![member_row()]);
    assert!(check_workspace_permission(&resolver, TENANT, USER, WorkspaceRole::Viewer));
    assert!(check_workspace_permission(&resolver, TENANT, USER, WorkspaceRole::Member));
    assert!(!check_workspace_permission(&resolver, TENANT, USER, WorkspaceRole::Admin));
    assert!(!check_workspace_permission(&resolver, OTHER_TENANT, USER, WorkspaceRole::Viewer));
}

#[test]
fn workspace_selector_distinguishes_absent_malformed_and_valid() {
    assert_eq!(parse_workspace_selector(None).unwrap(), None);
    let valid = uuid::Uuid::from_u128(TENANT).to_string();
    assert_eq!(parse_workspace_selector(Some(valid.as_str())).unwrap(), Some(TENANT));
    let err = parse_workspace_selector(Some("not-a-workspace")).unwrap_err();
    assert!(matches!(err, AppError::BadRequest(m) if m == "Invalid workspace ID format"));
}
