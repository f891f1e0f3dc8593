//! Login: resolve a user by email and verify the presented password against
//! the stored one-way hash.

use vstd::prelude::*;
use crate::passwords::{verifies, verify_password};
use crate::store::{Store, find_by_email};
use crate::types::LoginError;

verus! {

/// A login request: the caller's email and plaintext password.
pub struct RequestUser {
    pub email: String,
    pub password: String,
}

/// Authenticates a user: the first row with the given email is looked up and
/// the password is verified against its stored hash. On success the user's
/// bearer token and identifier are returned.
pub fn login(store: &Store, payload: &RequestUser) -> (r: Result<(u128, u128), LoginError>)
    ensures
        match find_by_email(store@, payload.email@) {
            None => r matches Err(e) && e == LoginError::NotFound,
            Some(u) => if verifies(payload.password@, u.password_hash) {
                r matches Ok(t) && t == (u.jwt, u.user_id)
            } else {
                r matches Err(e) && e == LoginError::InvalidPassword
            },
        },
{
    match store.lookup_by_email(payload.email.as_str()) {
        None => Err(LoginError::NotFound),
        Some(u) => match verify_password(payload.password.as_str(), u.password_hash.as_str()) {
            Ok(_) => Ok((u.jwt, u.user_id)),
            Err(_) => Err(LoginError::InvalidPassword),
        },
    }
}

} // verus!
