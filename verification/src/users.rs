//! Account request payloads; field validation is declarative and happens at
//! the boundary, outside this library.

use vstd::prelude::*;

verus! {

/// Payload for registering an account.
#[derive(Debug, Clone)]
pub struct RegisterUserDto {
    pub username: String,
    pub email: String,
    pub password: String,
}

/// Payload for logging in.
#[derive(Debug, Clone)]
pub struct LoginUserDto {
    pub email: String,
    pub password: String,
}

} // verus!
