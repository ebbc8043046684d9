use tenantcore::errors::classify_database_error;
use tenantcore::errors::AppError;
use tenantcore::errors::AuthError;
use tenantcore::errors::CookieError;
use tenantcore::errors::DatabaseError;
use tenantcore::errors::DbFailure;
use tenantcore::errors::NotFoundError;

#[test]
fn authentication_failures_surface_as_unauthorized() {
    let parts = AppError::Authentication(AuthError::MissingToken).http_parts();
    assert_eq!(parts.status, 401);
    assert_eq!(parts.error, "TOKEN_MISSING");
    assert_eq!(parts.message, "Authentication token is required");
    assert_eq!(parts.code, "AUTH_002");

    let parts = AppError::Authentication(AuthError::InvalidToken).http_parts();
    assert_eq!(parts.error, "TOKEN_INVALID");
    assert_eq!(parts.code, "AUTH_003");

    let parts = AppError::Authentication(AuthError::ExpiredToken).http_parts();
    assert_eq!(parts.error, "TOKEN_EXPIRED");
    assert_eq!(parts.code, "AUTH_005");
}

#[test]
fn authorization_failures_surface_as_forbidden_without_detail() {
    let parts = AppError::Authorization("wrong role held".to_string()).http_parts();
    assert_eq!(parts.status, 403);
    assert_eq!(parts.error, "AUTHORIZATION_FAILED");
    assert_eq!(parts.message, "Insufficient permissions");
}

#[test]
fn database_failures_never_leak_their_message() {
    let parts =
        AppError::Database(DatabaseError::QueryFailed("secret table broke".to_string()))
            .http_parts();
    assert_eq!(parts.status, 500);
    assert_eq!(parts.error, "DATABASE_ERROR");
    assert_eq!(parts.message, "A database error occurred");

    let parts =
        AppError::Database(DatabaseError::SchemaMismatch("col x missing".to_string()))
            .http_parts();
    assert_eq!(parts.error, "DATABASE_SCHEMA_ERROR");
    assert_eq!(parts.code, "DB_SCHEMA_001");
}

#[test]
fn remaining_variants_map_to_their_statuses() {
    let nf = AppError::NotFound(NotFoundError { resource: "Contact".to_string(), id: Some(5) });
    let parts = nf.http_parts();
    assert_eq!(parts.status, 404);
    assert_eq!(parts.message, "Contact not found");

    assert_eq!(AppError::Conflict("duplicate".to_string()).http_parts().status, 409);
    assert_eq!(AppError::BadRequest("bad".to_string()).http_parts().status, 400);
    assert_eq!(AppError::Cookie(CookieError::Expired).http_parts().message, "Cookie has expired");
    assert_eq!(AppError::Serialization("x".to_string()).http_parts().status, 500);
    assert_eq!(AppError::Internal("x".to_string()).http_parts().status, 500);
    assert_eq!(AppError::NotAllowed("POST".to_string()).http_parts().status, 405);
    assert_eq!(AppError::Unhandled("x".to_string()).http_parts().code, "UNH_001");
}

#[test]
fn validation_with_code_carries_field_and_rule() {
    let err = AppError::validation_with_code(
        "code",
        "Contact code already exists in this workspace",
        "DUPLICATE_CODE",
    );
    match err {
        AppError::Validation(entries) => {
            assert_eq!(entries.len(), 1);
            assert_eq!(entries[0].field, "code");
            assert_eq!(entries[0].code.as_deref(), Some("DUPLICATE_CODE"));
        }
        _ => panic!("expected a validation failure"),
    }
}

#[test]
fn unique_violation_classifies_as_retryable_duplicate() {
    let err = classify_database_error(&DbFailure::Database {
        code: Some("23505".to_string()),
        message: "duplicate key value violates unique constraint".to_string(),
    });
    match err {
        AppError::Validation(entries) => {
            assert_eq!(entries[0].code.as_deref(), Some("duplicate_entry"));
        }
        _ => panic!("expected a validation failure"),
    }
}

#[test]
fn schema_messages_classify_as_schema_mismatch() {
    let err = classify_database_error(&DbFailure::Database {
        code: None,
        message: "column \"nickname\" does not exist".to_string(),
    });
    assert!(matches!(err, AppError::Database(DatabaseError::SchemaMismatch(_))));

    let err = classify_database_error(&DbFailure::Database {
        code: None,
        message: "connection reset".to_string(),
    });
    assert!(matches!(err, AppError::Database(DatabaseError::QueryFailed(m)) if m == "connection reset"));
}

#[test]
fn missing_rows_and_columns_classify_distinctly() {
    assert!(matches!(
        classify_database_error(&DbFailure::RowNotFound),
        AppError::NotFound(_)
    ));
    let err = classify_database_error(&DbFailure::ColumnNotFound("email".to_string()));
    assert!(matches!(
        err,
        AppError::Database(DatabaseError::ColumnNotFound(m))
            if m == "Column 'email' not found in query result"
    ));
}

#[test]
fn missing_relation_messages_classify_as_schema_mismatch() {
    let err = classify_database_error(&DbFailure::Database {
        code: None,
        message: "relation \"contacts\" does not exist".to_string(),
    });
    assert!(matches!(err, AppError::Database(DatabaseError::SchemaMismatch(_))));
}

#[test]
fn missing_rows_report_a_generic_resource() {
    match classify_database_error(&DbFailure::RowNotFound) {
        AppError::NotFound(nf) => {
            assert_eq!(nf.resource, "Resource");
            assert!(nf.id.is_none());
        }
        _ => panic!("expected a not-found failure"),
    }
}
