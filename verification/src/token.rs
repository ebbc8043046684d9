//! Bearer-credential decoding: verifies the signature through the JWT
//! library, then checks the shape of the header, the subject claim and the
//! expiry in verified code.
//!
//! A malformed credential and one with a bad signature surface as the same
//! invalid-token error, so the response gives no oracle for telling the two
//! apart; a missing credential and an expired one are distinct outcomes.

use vstd::prelude::*;

use crate::errors::AuthError;
use crate::ids::uuid_of;

verus! {

/// The authenticated identity extracted from a credential, independent of
/// any tenant; lives only for the duration of one request.
#[derive(Debug, Clone, Copy, PartialEq, Eq, Structural)]
pub struct Principal {
    pub id: u128,
    pub issued_at: u64,
    pub expires_at: u64,
}

/// The `(sub, exp, iat)` claims a token yields under a key when its HS256
/// signature verifies and its payload decodes; a function of token and key
/// alone, with no clock involved.
pub uninterp spec fn jwt_claims_of(token: Seq<char>, key: Seq<u8>) -> Option<(Seq<char>, u64, u64)>;

/// Relies on `jsonwebtoken::decode` with HS256 — the signature is verified
/// against the key, expiry is deliberately not checked here — and on
/// `serde_json::Value`'s accessors for the `sub`, `exp` and `iat` claims.
#[verifier::external_body]
fn jwt_verify(token: &str, key: &[u8]) -> (r: Option<(String, u64, u64)>)
    ensures
        match (r, jwt_claims_of(token@, key@)) {
            (Some(c), Some(s)) => c.0@ == s.0 && c.1 == s.1 && c.2 == s.2,
            (None, None) => true,
            _ => false,
        },
{
    let mut validation = jsonwebtoken::Validation::new(jsonwebtoken::Algorithm::HS256);
    validation.validate_exp = false;
    validation.required_spec_claims.clear();
    let decoding_key = jsonwebtoken::DecodingKey::from_secret(key);
    let data = jsonwebtoken::decode::<serde_json::Value>(token, &decoding_key, &validation).ok()?;
    let sub = data.claims.get("sub")?.as_str()?.to_string();
    let exp = data.claims.get("exp")?.as_u64()?;
    let iat = data.claims.get("iat")?.as_u64()?;
    Some((sub, exp, iat))
}

/// What decoding a credential yields: each failure kind on exactly the
/// inputs that produce it, and otherwise the principal carried by the
/// token's claims.
pub open spec fn decode_spec(credential: Option<Seq<char>>, key: Seq<u8>, now: u64) -> Result<
    Principal,
    AuthError,
> {
    match credential {
        None => Err(AuthError::MissingToken),
        Some(h) => if !(h.len() >= 7 && h.take(7) == "Bearer "@) {
            Err(AuthError::InvalidToken)
        } else {
            match jwt_claims_of(h.skip(7), key) {
                None => Err(AuthError::InvalidToken),
                Some(c) => match uuid_of(c.0) {
                    None => Err(AuthError::InvalidToken),
                    Some(id) => if c.1 <= now {
                        Err(AuthError::ExpiredToken)
                    } else {
                        Ok(Principal { id, issued_at: c.2, expires_at: c.1 })
                    },
                },
            }
        },
    }
}

/// Verifies and decodes bearer credentials against a server-held secret.
pub struct TokenCodec {
    pub secret: Vec<u8>,
}

impl TokenCodec {
    pub fn new(secret: Vec<u8>) -> (c: Self)
        ensures
            c.secret@ == secret@,
    {
        TokenCodec { secret }
    }

    /// Decodes a bearer credential: distinguishes a missing credential, a
    /// malformed or badly signed one, and an expired one, and otherwise
    /// returns the principal. `now` is the caller's clock in seconds.
    pub fn decode(&self, credential: Option<&str>, now: u64) -> (r: Result<Principal, AuthError>)
        ensures
            r == decode_spec(
                match credential {
                    Some(s) => Some(s@),
                    None => None,
                },
                self.secret@,
                now,
            ),
    {
        let header = match credential {
            None => {
                return Err(AuthError::MissingToken);
            },
            Some(h) => h,
        };
        if !crate::strutil::starts_with_str(header, "Bearer ") {
            proof {
                reveal_strlit("Bearer ");
            }
            return Err(AuthError::InvalidToken);
        }
        proof {
            reveal_strlit("Bearer ");
        }
        let len = header.unicode_len();
        let token = header.substring_char(7, len);
        proof {
            assert(token@ =~= header@.skip(7));
        }
        let claims = match jwt_verify(token, self.secret.as_slice()) {
            None => {
                return Err(AuthError::InvalidToken);
            },
            Some(c) => c,
        };
        let id = match crate::ids::parse_uuid(claims.0.as_str()) {
            None => {
                return Err(AuthError::InvalidToken);
            },
            Some(v) => v,
        };
        if claims.1 <= now {
            Err(AuthError::ExpiredToken)
        } else {
            Ok(Principal { id, issued_at: claims.2, expires_at: claims.1 })
        }
    }
}

/// Decoding is deterministic: the same credential under the same key and
/// clock always yields the same outcome — in particular, a valid credential
/// yields the same principal id on every call.
pub proof fn lemma_decode_deterministic(
    r1: Result<Principal, AuthError>,
    r2: Result<Principal, AuthError>,
    credential: Option<Seq<char>>,
    key: Seq<u8>,
    now: u64,
)
    requires
        r1 == decode_spec(credential, key, now),
        r2 == decode_spec(credential, key, now),
    ensures
        r1 == r2,
        r1 matches Ok(p1) ==> r2 matches Ok(p2) ==> p1.id == p2.id,
{
}

} // verus!
