//! The end-to-end middleware contract: decode the credential, resolve
//! tenant access when a tenant was selected, and run the handler inside a
//! scoped session binding whose release no path can skip.
//!
//! The outside work — the membership query, the bind and unbind statements,
//! the handler itself — happens in the caller; this module holds the
//! decisions: which requests are rejected and with what, what binding a
//! surviving request carries, and the order of events on the connection.

use vstd::prelude::*;

use crate::errors::Rejection;
use crate::session::ConnectionSession;
use crate::session::SessionBinding;
use crate::tenant::first_role;
use crate::tenant::Membership;
use crate::tenant::TenantAccessResolver;
use crate::token::decode_spec;
use crate::token::Principal;
use crate::token::TokenCodec;

verus! {

/// What happened on the connection, in order.
#[derive(Debug, Clone, Copy, PartialEq, Eq, Structural)]
pub enum ConnEvent {
    /// The session binding was projected onto the connection.
    Bind,
    /// The handler ran to completion; the payload records its success.
    Handler(bool),
    /// The session binding was cleared.
    Unbind,
}

/// The terminal state of one request.
#[derive(Debug, Clone, Copy, PartialEq, Eq, Structural)]
pub enum Outcome {
    /// Rejected before the handler ran; nothing tenant-specific leaked.
    Rejected(Rejection),
    /// The handler ran under a valid binding; the payload records whether
    /// it succeeded.
    Completed(bool),
}

/// How often `e` occurs in a trace.
pub open spec fn count_events(tr: Seq<ConnEvent>, e: ConnEvent) -> nat
    decreases tr.len(),
{
    if tr.len() == 0 {
        0
    } else {
        count_events(tr.drop_last(), e) + if tr.last() == e {
            1 as nat
        } else {
            0
        }
    }
}

/// The binding a request obtains, or the rejection that ends it: an
/// authentication failure is surfaced as such; a selected tenant without a
/// membership row is rejected with no tenant access; a route that requires
/// a tenant rejects a request that selected none before any connection is
/// touched; otherwise the request is bound to the resolved role, or to no
/// tenant at all on a tenant-independent route.
pub open spec fn authorize_spec(
    credential: Option<Seq<char>>,
    key: Seq<u8>,
    now: u64,
    selector: Option<u128>,
    ms: Seq<Membership>,
    tenant_required: bool,
) -> Result<SessionBinding, Rejection> {
    match decode_spec(credential, key, now) {
        Err(e) => Err(Rejection::Unauthenticated(e)),
        Ok(p) => match selector {
            Some(t) => match first_role(ms, p.id, t) {
                None => Err(Rejection::NoTenantAccess),
                Some(role) => Ok(
                    SessionBinding {
                        principal_id: p.id,
                        workspace_id: Some(t),
                        role: Some(role),
                    },
                ),
            },
            None => if tenant_required {
                Err(Rejection::NoTenantAccess)
            } else {
                Ok(SessionBinding { principal_id: p.id, workspace_id: None, role: None })
            },
        },
    }
}

/// The per-request pipeline: a token codec and the resolver holding this
/// request's view of the membership relation.
pub struct RequestAuthority {
    pub codec: TokenCodec,
    pub resolver: TenantAccessResolver,
}

impl RequestAuthority {
    pub fn new(codec: TokenCodec, resolver: TenantAccessResolver) -> (r: Self)
        ensures
            r.codec == codec,
            r.resolver == resolver,
    {
        RequestAuthority { codec, resolver }
    }

    /// Decodes the credential and resolves tenant access; returns the
    /// binding the request is to run under, or its terminal rejection.
    pub fn authorize(
        &self,
        credential: Option<&str>,
        selector: Option<u128>,
        tenant_required: bool,
        now: u64,
    ) -> (r: Result<SessionBinding, Rejection>)
        ensures
            r == authorize_spec(
                match credential {
                    Some(s) => Some(s@),
                    None => None,
                },
                self.codec.secret@,
                now,
                selector,
                self.resolver.memberships@,
                tenant_required,
            ),
            r matches Ok(b) ==> b.wf(),
            r matches Ok(b) ==> match selector {
                Some(t) => b.workspace_id == Some(t),
                None => b.workspace_id matches None,
            },
    {
        let principal = match self.codec.decode(credential, now) {
            Err(e) => {
                return Err(Rejection::Unauthenticated(e));
            },
            Ok(p) => p,
        };
        match selector {
            Some(t) => match self.resolver.resolve(principal.id, t) {
                None => Err(Rejection::NoTenantAccess),
                Some(role) => Ok(
                    SessionBinding {
                        principal_id: principal.id,
                        workspace_id: Some(t),
                        role: Some(role),
                    },
                ),
            },
            None => {
                if tenant_required {
                    Err(Rejection::NoTenantAccess)
                } else {
                    Ok(
                        SessionBinding {
                            principal_id: principal.id,
                            workspace_id: None,
                            role: None,
                        },
                    )
                }
            },
        }
    }

    /// The scoped-acquisition block around the handler: bind, run, unbind.
    /// The pool hands each request an exclusively owned, clean connection,
    /// so the block starts on a connection carrying no binding.
    /// A failed bind is atomic — the connection keeps what it had, nothing
    /// ran — and a successful bind is always followed by the handler and
    /// then the unbind, whether or not the handler succeeded. The returned
    /// trace lists the connection events in order, and binds and unbinds in
    /// it always balance.
    pub fn run_session(
        conn: &mut ConnectionSession,
        binding: SessionBinding,
        bind_ok: bool,
        handler_ok: bool,
    ) -> (r: (Outcome, Vec<ConnEvent>))
        requires
            old(conn).binding matches None,
        ensures
            !bind_ok ==> r.0 == Outcome::Rejected(Rejection::Internal) && r.1@
                =~= Seq::<ConnEvent>::empty() && *final(conn) == *old(conn),
            bind_ok ==> r.0 == Outcome::Completed(handler_ok) && r.1@ =~= seq![
                ConnEvent::Bind,
                ConnEvent::Handler(handler_ok),
                ConnEvent::Unbind,
            ] && (final(conn).binding matches None),
            count_events(r.1@, ConnEvent::Bind) == count_events(r.1@, ConnEvent::Unbind),
    {
        let mut trace: Vec<ConnEvent> = Vec::new();
        if !bind_ok {
            proof {
                reveal_with_fuel(count_events, 2);
            }
            return (Outcome::Rejected(Rejection::Internal), trace);
        }
        conn.bind(binding);
        trace.push(ConnEvent::Bind);
        trace.push(ConnEvent::Handler(handler_ok));
        conn.unbind();
        trace.push(ConnEvent::Unbind);
        proof {
            reveal_with_fuel(count_events, 5);
            assert(trace@ =~= seq![
                ConnEvent::Bind,
                ConnEvent::Handler(handler_ok),
                ConnEvent::Unbind,
            ]);
            assert(trace@.drop_last() =~= seq![ConnEvent::Bind, ConnEvent::Handler(handler_ok)]);
            assert(trace@.drop_last().drop_last() =~= seq![ConnEvent::Bind]);
            assert(trace@.drop_last().drop_last().drop_last() =~= Seq::<ConnEvent>::empty());
        }
        (Outcome::Completed(handler_ok), trace)
    }

    /// One whole request: authorize, then run the handler inside the scoped
    /// binding. A rejected request never touches the connection — its trace
    /// is empty, so in particular it is never bound — and a request that
    /// reaches the handler always unbinds afterward, the handler's failure
    /// included.
    pub fn process_request(
        &self,
        conn: &mut ConnectionSession,
        credential: Option<&str>,
        selector: Option<u128>,
        tenant_required: bool,
        now: u64,
        bind_ok: bool,
        handler_ok: bool,
    ) -> (r: (Outcome, Vec<ConnEvent>))
        requires
            old(conn).binding matches None,
        ensures
            ({
                let auth = authorize_spec(
                    match credential {
                        Some(s) => Some(s@),
                        None => None,
                    },
                    self.codec.secret@,
                    now,
                    selector,
                    self.resolver.memberships@,
                    tenant_required,
                );
                match auth {
                    Err(rej) => r.0 == Outcome::Rejected(rej) && r.1@
                        =~= Seq::<ConnEvent>::empty() && *final(conn) == *old(conn),
                    Ok(b) => (!bind_ok ==> r.0 == Outcome::Rejected(Rejection::Internal) && r.1@
                        =~= Seq::<ConnEvent>::empty() && *final(conn) == *old(conn)) && (bind_ok
                        ==> r.0 == Outcome::Completed(handler_ok) && r.1@ =~= seq![
                        ConnEvent::Bind,
                        ConnEvent::Handler(handler_ok),
                        ConnEvent::Unbind,
                    ] && (final(conn).binding matches None)),
                }
            }),
            count_events(r.1@, ConnEvent::Bind) == count_events(r.1@, ConnEvent::Unbind),
    {
        match self.authorize(credential, selector, tenant_required, now) {
            Err(rej) => {
                let trace: Vec<ConnEvent> = Vec::new();
                proof {
                    reveal_with_fuel(count_events, 2);
                }
                (Outcome::Rejected(rej), trace)
            },
            Ok(binding) => Self::run_session(conn, binding, bind_ok, handler_ok),
        }
    }
}

/// A (principal, tenant) pair absent from the membership relation is
/// rejected with no tenant access: the request's authorization is exactly
/// `NoTenantAccess`, so its trace stays empty and it is never bound.
pub proof fn lemma_absent_pair_rejected(
    credential: Option<Seq<char>>,
    key: Seq<u8>,
    now: u64,
    tenant: u128,
    ms: Seq<Membership>,
    tenant_required: bool,
    p: Principal,
)
    requires
        decode_spec(credential, key, now) == Ok::<Principal, crate::errors::AuthError>(p),
        forall|i: int|
            0 <= i < ms.len() ==> !((#[trigger] ms[i]).user_id == p.id && ms[i].workspace_id
                == tenant),
    ensures
        authorize_spec(credential, key, now, Some(tenant), ms, tenant_required) == Err::<
            SessionBinding,
            Rejection,
        >(Rejection::NoTenantAccess),
{
    crate::tenant::lemma_first_role_absent(ms, p.id, tenant);
}

} // verus!
