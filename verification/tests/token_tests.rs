use tenantcore::errors::AuthError;
use tenantcore::token::TokenCodec;

const SECRET: &[u8] = b"test-signing-secret";

fn issue_token(sub: &str, iat: u64, exp: u64, secret: &[u8]) -> String {
    let mut claims = serde_json::Map::new();
    claims.insert("sub".to_string(), serde_json::Value::String(sub.to_string()));
    claims.insert("exp".to_string(), serde_json::Value::Number(serde_json::Number::from(exp)));
    claims.insert("iat".to_string(), serde_json::Value::Number(serde_json::Number::from(iat)));
    jsonwebtoken::encode(
        &jsonwebtoken::Header::default(),
        &serde_json::Value::Object(claims),
        &jsonwebtoken::EncodingKey::from_secret(secret),
    )
    .unwrap()
}

fn bearer(token: &str) -> String {
    let mut h = String::from("Bearer ");
    h.push_str(token);
    h
}

#[test]
fn valid_credential_decodes_to_its_principal() {
    let codec = TokenCodec::new(SECRET.to_vec());
    let sub = "123e4567-e89b-12d3-a456-426614174000";
    let token = issue_token(sub, 1_000, 2_000, SECRET);
    let header = bearer(&token);

    let principal = codec.decode(Some(header.as_str()), 1_500).unwrap();
    assert_eq!(principal.id, uuid::Uuid::parse_str(sub).unwrap().as_u128());
    assert_eq!(principal.issued_at, 1_000);
    assert_eq!(principal.expires_at, 2_000);
}

#[test]
fn decoding_is_deterministic_for_a_valid_credential() {
    let codec = TokenCodec::new(SECRET.to_vec());
    let sub = "123e4567-e89b-12d3-a456-426614174000";
    let token = issue_token(sub, 1_000, 2_000, SECRET);
    let header = bearer(&token);

    let first = codec.decode(Some(header.as_str()), 1_500).unwrap();
    let second = codec.decode(Some(header.as_str()), 1_500).unwrap();
    assert_eq!(first.id, second.id);
    assert_eq!(first, second);
}

#[test]
fn missing_credential_is_its_own_failure() {
    let codec = TokenCodec::new(SECRET.to_vec());
    assert!(matches!(codec.decode(None, 1_500), Err(AuthError::MissingToken)));
}

#[test]
fn expired_credential_is_its_own_failure() {
    let codec = TokenCodec::new(SECRET.to_vec());
    let token = issue_token("123e4567-e89b-12d3-a456-426614174000", 1_000, 2_000, SECRET);
    let header = bearer(&token);
    assert!(matches!(codec.decode(Some(header.as_str()), 2_000), Err(AuthError::ExpiredToken)));
    assert!(matches!(codec.decode(Some(header.as_str()), 9_999), Err(AuthError::ExpiredToken)));
}

#[test]
fn malformed_and_badly_signed_credentials_are_indistinguishable() {
    let codec = TokenCodec::new(SECRET.to_vec());

    // Not a bearer header at all.
    assert!(matches!(codec.decode(Some("Basic abc"), 1_500), Err(AuthError::InvalidToken)));

    // Bearer, but not a token.
    assert!(matches!(
        codec.decode(Some("Bearer invalid-token"), 1_500),
        Err(AuthError::InvalidToken)
    ));

    // A real token signed under a different key: same failure as malformed.
    let forged = issue_token("123e4567-e89b-12d3-a456-426614174000", 1_000, 2_000, b"other-key");
    let header = bearer(&forged);
    assert!(matches!(codec.decode(Some(header.as_str()), 1_500), Err(AuthError::InvalidToken)));
}

#[test]
fn subject_that_is_not_a_uuid_is_invalid() {
    let codec = TokenCodec::new(SECRET.to_vec());
    let token = issue_token("not-a-uuid", 1_000, 2_000, SECRET);
    let header = bearer(&token);
    assert!(matches!(codec.decode(Some(header.as_str()), 1_500), Err(AuthError::InvalidToken)));
}
