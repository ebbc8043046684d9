//! Multi-tenant request scoping, verified: bearer-token decoding, per-tenant
//! role resolution, connection-session binding with guaranteed release,
//! sequential human-readable code allocation, and parameterized
//! filtered-query construction.
//!
//! The library holds the decisions and the statement construction; callers
//! perform the I/O — run the statements, fetch the rows, run the handler —
//! and feed the outcomes back in.

pub mod authority;
pub mod codegen;
pub mod contact_query;
pub mod contacts;
pub mod errors;
pub mod filters;
pub mod ids;
pub mod pagination;
pub mod product_query;
pub mod products;
pub mod roles;
pub mod session;
pub mod sqlgen;
pub mod strutil;
pub mod tenant;
pub mod token;
pub mod users;
pub mod workspaces;

pub use authority::RequestAuthority;
pub use codegen::CodeGenerator;
pub use codegen::CodeGeneratorConfig;
pub use contact_query::ContactQueryBuilder;
pub use product_query::ProductQueryBuilder;
pub use roles::PermissionGate;
pub use roles::WorkspaceRole;
pub use session::SessionBinding;
pub use session::SessionContextBinder;
pub use tenant::TenantAccessResolver;
pub use token::TokenCodec;
