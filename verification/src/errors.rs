//! Error taxonomy of the library: authentication failures, database
//! failures as the storage layer reports them, cookie failures, field
//! validation records, code-allocation failures, and the terminal
//! rejections of the request pipeline.

use vstd::prelude::*;

verus! {

/// Authentication-specific failures, surfaced as an unauthorized outcome.
#[derive(Debug, Clone, Copy, PartialEq, Eq, Structural)]
pub enum AuthError {
    /// The provided login credentials are invalid.
    InvalidCredentials,
    /// An authentication token is missing from the request.
    MissingToken,
    /// The provided token is invalid, malformed, or carries a bad signature.
    InvalidToken,
    /// The selected workspace does not exist or the caller has no access.
    InvalidWorkspace,
    /// The provided token has expired.
    ExpiredToken,
}

impl AuthError {
    /// Human-readable description of the failure.
    pub fn message(self) -> (r: String)
        ensures
            r@ == match self {
                AuthError::InvalidCredentials => "Invalid email or password"@,
                AuthError::MissingToken => "Authentication token is missing"@,
                AuthError::InvalidToken => "Authentication token is invalid"@,
                AuthError::InvalidWorkspace => "Invalid workspace access or workspace not found"@,
                AuthError::ExpiredToken => "Authentication token has expired"@,
            },
    {
        match self {
            AuthError::InvalidCredentials => "Invalid email or password".to_owned(),
            AuthError::MissingToken => "Authentication token is missing".to_owned(),
            AuthError::InvalidToken => "Authentication token is invalid".to_owned(),
            AuthError::InvalidWorkspace => "Invalid workspace access or workspace not found"
                .to_owned(),
            AuthError::ExpiredToken => "Authentication token has expired".to_owned(),
        }
    }
}

/// Database-specific failures.
#[derive(Debug, Clone)]
pub enum DatabaseError {
    /// Failed to establish a connection to the database.
    ConnectionFailed(String),
    /// A database query failed to execute.
    QueryFailed(String),
    /// A database transaction failed.
    TransactionFailed(String),
    /// A database migration failed.
    MigrationFailed(String),
    /// A trial account has exceeded its database size limit.
    SizeExceeded(String),
    /// The database schema does not match the expected structure.
    SchemaMismatch(String),
    /// A column was missing from a query result.
    ColumnNotFound(String),
}

/// Failures in handling HTTP cookies.
#[derive(Debug, Clone, Copy, PartialEq, Eq, Structural)]
pub enum CookieError {
    /// The cookie format is invalid.
    InvalidFormat,
    /// A required cookie is missing from the request.
    Missing,
    /// The cookie has expired.
    Expired,
}

/// A single validation failure for one named field.
#[derive(Debug, Clone)]
pub struct ValidationError {
    /// The field that failed validation.
    pub field: String,
    /// The message describing the failure.
    pub message: String,
    /// An optional code naming the violated rule.
    pub code: Option<String>,
}

/// Failures of sequential code allocation.
#[derive(Debug, Clone, Copy, PartialEq, Eq, Structural)]
pub enum CodeError {
    /// A stored code did not match the `prefix`-`separator`-`digits` shape.
    InvalidFormat,
    /// The incremented number would exceed the digit width of the scope.
    Exhausted,
    /// An identical code was already present at insert time; retryable.
    Conflict,
    /// A workspace id was supplied to a scope without a workspace column,
    /// or withheld from a scope that has one.
    ConfigMismatch,
}

/// The terminal rejections of the request pipeline: an authentication
/// failure, a missing tenant membership, or an internal fault such as a
/// failed session binding.
#[derive(Debug, Clone, Copy, PartialEq, Eq, Structural)]
pub enum Rejection {
    Unauthenticated(AuthError),
    NoTenantAccess,
    Internal,
}

/// A resource that could not be found: its kind and, when known, its id.
#[derive(Debug, Clone)]
pub struct NotFoundError {
    pub resource: String,
    pub id: Option<u128>,
}

/// Every failure the application surfaces, consolidated.
#[derive(Debug, Clone)]
pub enum AppError {
    /// Authentication failed; surfaced as an unauthorized outcome.
    Authentication(AuthError),
    /// The principal is authenticated but lacks the required role or
    /// tenant access; surfaced as forbidden, never retried.
    Authorization(String),
    /// Data validation failed, typically on user input.
    Validation(Vec<ValidationError>),
    /// The storage layer failed.
    Database(DatabaseError),
    /// A requested resource does not exist.
    NotFound(NotFoundError),
    /// The resource already exists.
    Conflict(String),
    /// The request could not be parsed or processed.
    BadRequest(String),
    /// A cookie was missing, malformed or expired.
    Cookie(CookieError),
    /// Serialization or deserialization failed.
    Serialization(String),
    /// Any other internal fault.
    Internal(String),
    /// The HTTP method is not supported on this route.
    NotAllowed(String),
    /// A catch-all for unexpected failures.
    Unhandled(String),
}

/// What an error surfaces as: the HTTP status, a stable error type, a
/// human-readable message, and an application code. Internal detail never
/// reaches the message of a database or internal failure.
#[derive(Debug, Clone)]
pub struct ErrorParts {
    pub status: u16,
    pub error: String,
    pub message: String,
    pub code: String,
}

impl AppError {
    /// A single-field validation failure carrying a rule code.
    pub fn validation_with_code(field: &str, message: &str, code: &str) -> (r: Self)
        ensures
            ({
                &&& r matches AppError::Validation(v)
                &&& v@.len() == 1
                &&& v@[0].field@ == field@
                &&& v@[0].message@ == message@
                &&& v@[0].code matches Some(c)
                &&& c@ == code@
            }),
    {
        let entry = ValidationError {
            field: field.to_owned(),
            message: message.to_owned(),
            code: Some(code.to_owned()),
        };
        let mut entries = Vec::new();
        entries.push(entry);
        AppError::Validation(entries)
    }

    /// A trial account has exceeded its storage allotment.
    pub fn database_size_exceeded(message: &str) -> (r: Self)
        ensures
            r matches AppError::Database(DatabaseError::SizeExceeded(m)) && m@ == message@,
    {
        AppError::Database(DatabaseError::SizeExceeded(message.to_owned()))
    }

    /// The schema does not match what a query expected.
    pub fn schema_mismatch(message: &str) -> (r: Self)
        ensures
            r matches AppError::Database(DatabaseError::SchemaMismatch(m)) && m@ == message@,
    {
        AppError::Database(DatabaseError::SchemaMismatch(message.to_owned()))
    }

    /// A column was missing from a query result.
    pub fn column_not_found(column_name: &str) -> (r: Self)
        ensures
            r matches AppError::Database(DatabaseError::ColumnNotFound(m)) && m@ == "Column '"@
                + column_name@ + "' not found"@,
    {
        let mut m = "Column '".to_owned();
        m.append(column_name);
        m.append("' not found");
        AppError::Database(DatabaseError::ColumnNotFound(m))
    }

    /// How the error surfaces: the status class and code of every variant,
    /// with generic messages wherever detail must not leak to the client.
    pub fn http_parts(&self) -> (r: ErrorParts)
        ensures
            match self {
                AppError::Authentication(e) => r.status == 401 && match e {
                    AuthError::InvalidCredentials => r.error@ == "AUTHENTICATION_FAILED"@
                        && r.message@ == "Invalid email or password"@ && r.code@ == "AUTH_001"@,
                    AuthError::MissingToken => r.error@ == "TOKEN_MISSING"@ && r.message@
                        == "Authentication token is required"@ && r.code@ == "AUTH_002"@,
                    AuthError::InvalidToken => r.error@ == "TOKEN_INVALID"@ && r.message@
                        == "Authentication token is invalid"@ && r.code@ == "AUTH_003"@,
                    AuthError::InvalidWorkspace => r.error@ == "WORKSPACE_INVALID"@ && r.message@
                        == "Invalid workspace access or workspace not found"@ && r.code@
                        == "AUTH_004"@,
                    AuthError::ExpiredToken => r.error@ == "TOKEN_EXPIRED"@ && r.message@
                        == "Authentication token has expired"@ && r.code@ == "AUTH_005"@,
                },
                AppError::Authorization(_) => r.status == 403 && r.error@
                    == "AUTHORIZATION_FAILED"@ && r.message@ == "Insufficient permissions"@
                    && r.code@ == "AUTHZ_001"@,
                AppError::Validation(_) => r.status == 422 && r.error@ == "VALIDATION_FAILED"@
                    && r.message@ == "Request validation failed"@ && r.code@ == "VAL_001"@,
                AppError::Database(db) => r.status == 500 && match db {
                    DatabaseError::SchemaMismatch(_) => r.error@ == "DATABASE_SCHEMA_ERROR"@
                        && r.message@
                        == "Database configuration error. Please contact system administrator."@
                        && r.code@ == "DB_SCHEMA_001"@,
                    DatabaseError::ColumnNotFound(_) => r.error@ == "DATABASE_COLUMN_ERROR"@
                        && r.message@
                        == "Database structure error. Please contact system administrator."@
                        && r.code@ == "DB_COL_001"@,
                    _ => r.error@ == "DATABASE_ERROR"@ && r.message@
                        == "A database error occurred"@ && r.code@ == "DB_001"@,
                },
                AppError::NotFound(nf) => r.status == 404 && r.error@ == "RESOURCE_NOT_FOUND"@
                    && r.message@ == nf.resource@ + " not found"@ && r.code@ == "NF_001"@,
                AppError::Conflict(m) => r.status == 409 && r.error@ == "RESOURCE_CONFLICT"@
                    && r.message@ == m@ && r.code@ == "CONFLICT_001"@,
                AppError::BadRequest(m) => r.status == 400 && r.error@ == "BAD_REQUEST"@
                    && r.message@ == m@ && r.code@ == "BR_001"@,
                AppError::Cookie(c) => r.status == 400 && r.error@ == "COOKIE_ERROR"@ && r.message@
                    == match c {
                    CookieError::InvalidFormat => "Cookie format is invalid"@,
                    CookieError::Missing => "Required cookie is missing"@,
                    CookieError::Expired => "Cookie has expired"@,
                } && r.code@ == "CK_001"@,
                AppError::Serialization(_) => r.status == 500 && r.error@ == "SERIALIZATION_ERROR"@
                    && r.message@ == "Data serialization failed"@ && r.code@ == "SER_001"@,
                AppError::Internal(_) => r.status == 500 && r.error@ == "INTERNAL_ERROR"@
                    && r.message@ == "An internal server error occurred"@ && r.code@ == "INT_001"@,
                AppError::NotAllowed(m) => r.status == 405 && r.error@ == "METHOD_NOT_ALLOWED"@
                    && r.message@ == m@ && r.code@ == "NOT_ALLOWED_001"@,
                AppError::Unhandled(_) => r.status == 500 && r.error@ == "UNHANDLED_ERROR"@
                    && r.message@ == "An unexpected error occurred"@ && r.code@ == "UNH_001"@,
            },
    {
        match self {
            AppError::Authentication(e) => {
                let (error, message, code) = match e {
                    AuthError::InvalidCredentials => (
                        "AUTHENTICATION_FAILED",
                        "Invalid email or password",
                        "AUTH_001",
                    ),
                    AuthError::MissingToken => (
                        "TOKEN_MISSING",
                        "Authentication token is required",
                        "AUTH_002",
                    ),
                    AuthError::InvalidToken => (
                        "TOKEN_INVALID",
                        "Authentication token is invalid",
                        "AUTH_003",
                    ),
                    AuthError::InvalidWorkspace => (
                        "WORKSPACE_INVALID",
                        "Invalid workspace access or workspace not found",
                        "AUTH_004",
                    ),
                    AuthError::ExpiredToken => (
                        "TOKEN_EXPIRED",
                        "Authentication token has expired",
                        "AUTH_005",
                    ),
                };
                ErrorParts {
                    status: 401,
                    error: error.to_owned(),
                    message: message.to_owned(),
                    code: code.to_owned(),
                }
            },
            AppError::Authorization(_) => ErrorParts {
                status: 403,
                error: "AUTHORIZATION_FAILED".to_owned(),
                message: "Insufficient permissions".to_owned(),
                code: "AUTHZ_001".to_owned(),
            },
            AppError::Validation(_) => ErrorParts {
                status: 422,
                error: "VALIDATION_FAILED".to_owned(),
                message: "Request validation failed".to_owned(),
                code: "VAL_001".to_owned(),
            },
            AppError::Database(db) => {
                let (error, message, code) = match db {
                    DatabaseError::SchemaMismatch(_) => (
                        "DATABASE_SCHEMA_ERROR",
                        "Database configuration error. Please contact system administrator.",
                        "DB_SCHEMA_001",
                    ),
                    DatabaseError::ColumnNotFound(_) => (
                        "DATABASE_COLUMN_ERROR",
                        "Database structure error. Please contact system administrator.",
                        "DB_COL_001",
                    ),
                    _ => ("DATABASE_ERROR", "A database error occurred", "DB_001"),
                };
                ErrorParts {
                    status: 500,
                    error: error.to_owned(),
                    message: message.to_owned(),
                    code: code.to_owned(),
                }
            },
            AppError::NotFound(nf) => {
                let message = nf.resource.clone().concat(" not found");
                ErrorParts {
                    status: 404,
                    error: "RESOURCE_NOT_FOUND".to_owned(),
                    message,
                    code: "NF_001".to_owned(),
                }
            },
            AppError::Conflict(m) => ErrorParts {
                status: 409,
                error: "RESOURCE_CONFLICT".to_owned(),
                message: m.clone(),
                code: "CONFLICT_001".to_owned(),
            },
            AppError::BadRequest(m) => ErrorParts {
                status: 400,
                error: "BAD_REQUEST".to_owned(),
                message: m.clone(),
                code: "BR_001".to_owned(),
            },
            AppError::Cookie(c) => {
                let message = match c {
                    CookieError::InvalidFormat => "Cookie format is invalid",
                    CookieError::Missing => "Required cookie is missing",
                    CookieError::Expired => "Cookie has expired",
                };
                ErrorParts {
                    status: 400,
                    error: "COOKIE_ERROR".to_owned(),
                    message: message.to_owned(),
                    code: "CK_001".to_owned(),
                }
            },
            AppError::Serialization(_) => ErrorParts {
                status: 500,
                error: "SERIALIZATION_ERROR".to_owned(),
                message: "Data serialization failed".to_owned(),
                code: "SER_001".to_owned(),
            },
            AppError::Internal(_) => ErrorParts {
                status: 500,
                error: "INTERNAL_ERROR".to_owned(),
                message: "An internal server error occurred".to_owned(),
                code: "INT_001".to_owned(),
            },
            AppError::NotAllowed(m) => ErrorParts {
                status: 405,
                error: "METHOD_NOT_ALLOWED".to_owned(),
                message: m.clone(),
                code: "NOT_ALLOWED_001".to_owned(),
            },
            AppError::Unhandled(_) => ErrorParts {
                status: 500,
                error: "UNHANDLED_ERROR".to_owned(),
                message: "An unexpected error occurred".to_owned(),
                code: "UNH_001".to_owned(),
            },
        }
    }
}

/// A storage failure as the driver reports it, reduced to what the
/// classification reads.
#[derive(Debug, Clone)]
pub enum DbFailure {
    /// The query returned no row where one was required.
    RowNotFound,
    /// The named column was missing from the result.
    ColumnNotFound(String),
    /// The database itself reported an error, with its SQLSTATE code when
    /// one was given.
    Database { code: Option<String>, message: String },
    /// Anything else, rendered as text.
    Other(String),
}

/// Classifies a storage failure: a unique violation becomes a retryable
/// duplicate-entry validation failure; a message naming a missing column or
/// relation becomes a schema mismatch; a missing row becomes not-found; the
/// rest fail as plain query failures.
pub fn classify_database_error(failure: &DbFailure) -> (r: AppError)
    ensures
        match failure {
            DbFailure::RowNotFound => r matches AppError::NotFound(nf) && nf.resource@
                == "Resource"@ && nf.id matches None,
            DbFailure::ColumnNotFound(col) => r matches AppError::Database(
                DatabaseError::ColumnNotFound(m),
            ) && m@ == "Column '"@ + col@ + "' not found in query result"@,
            DbFailure::Database { code, message } => {
                if code matches Some(c) && c@ == "23505"@ {
                    &&& r matches AppError::Validation(v)
                    &&& v@.len() == 1
                    &&& v@[0].message@ == "An entry with this value already exists."@
                    &&& v@[0].code matches Some(k)
                    &&& k@ == "duplicate_entry"@
                } else if (crate::strutil::contains_sub(message@, "column"@) && (
                crate::strutil::contains_sub(message@, "does not exist"@)
                    || crate::strutil::contains_sub(message@, "not found"@))) || (
                crate::strutil::contains_sub(message@, "relation"@)
                    && crate::strutil::contains_sub(message@, "does not exist"@)) {
                    r matches AppError::Database(DatabaseError::SchemaMismatch(m)) && m@
                        == "Database schema error: "@ + message@
                } else {
                    r matches AppError::Database(DatabaseError::QueryFailed(m)) && m@ == message@
                }
            },
            DbFailure::Other(text) => r matches AppError::Database(DatabaseError::QueryFailed(m))
                && m@ == text@,
        },
{
    match failure {
        DbFailure::RowNotFound => AppError::NotFound(
            NotFoundError { resource: "Resource".to_owned(), id: None },
        ),
        DbFailure::ColumnNotFound(col) => {
            let mut m = "Column '".to_owned();
            m.append(col.as_str());
            m.append("' not found in query result");
            AppError::Database(DatabaseError::ColumnNotFound(m))
        },
        DbFailure::Database { code, message } => {
            let unique_violation = match code {
                Some(c) => crate::strutil::chars_eq(c.as_str(), "23505"),
                None => false,
            };
            if unique_violation {
                return AppError::validation_with_code(
                    "",
                    "An entry with this value already exists.",
                    "duplicate_entry",
                );
            }
            let schema_related = (crate::strutil::contains_substring(message.as_str(), "column")
                && (crate::strutil::contains_substring(message.as_str(), "does not exist")
                || crate::strutil::contains_substring(message.as_str(), "not found")))
                || (crate::strutil::contains_substring(message.as_str(), "relation")
                && crate::strutil::contains_substring(message.as_str(), "does not exist"));
            if schema_related {
                let m = "Database schema error: ".to_owned().concat(message.as_str());
                AppError::Database(DatabaseError::SchemaMismatch(m))
            } else {
                AppError::Database(DatabaseError::QueryFailed(message.clone()))
            }
        },
        DbFailure::Other(text) => AppError::Database(DatabaseError::QueryFailed(text.clone())),
    }
}

} // verus!
