//! Identifiers: 128-bit ids as the library's representation of UUIDs, and
//! the trusted parse from their canonical text form.

use vstd::prelude::*;

verus! {

/// The 128-bit value a string denotes under the UUID grammar, or nothing
/// when the string is not a UUID; a function of the string alone.
pub uninterp spec fn uuid_of(s: Seq<char>) -> Option<u128>;

/// Relies on `uuid::Uuid::parse_str` and `Uuid::as_u128`: parses the
/// canonical textual forms of a UUID into its 128-bit value.
#[verifier::external_body]
pub(crate) fn parse_uuid(s: &str) -> (r: Option<u128>)
    ensures
        r == uuid_of(s@),
{
    match uuid::Uuid::parse_str(s) {
        Ok(u) => Some(u.as_u128()),
        Err(_) => None,
    }
}

} // verus!
