//! Error taxonomy of the engine, and the universal error payload handed back
//! to API callers.

use vstd::prelude::*;

verus! {

/// Universal error payload for the API surface: a single message string.
pub struct RequestError {
    error: String,
}

impl View for RequestError {
    type V = Seq<char>;

    closed spec fn view(&self) -> Seq<char> {
        self.error@
    }
}

impl RequestError {
    /// The message carried by this error.
    pub fn message(&self) -> (r: &str)
        ensures
            r@ == self@,
    {
        self.error.as_str()
    }
}

impl From<String> for RequestError {
    fn from(value: String) -> (r: Self) {
        RequestError { error: value }
    }
}

impl vstd::std_specs::convert::FromSpecImpl<String> for RequestError {
    open spec fn obeys_from_spec() -> bool {
        true
    }

    closed spec fn from_spec(v: String) -> Self {
        RequestError { error: v }
    }
}

/// Failure of the one-way credential hash.
#[derive(Debug, Clone, Copy, PartialEq, Eq, Structural)]
pub struct HashError;

/// Failure of resolving a partial user to a complete record.
#[derive(Debug, Clone, Copy, PartialEq, Eq, Structural)]
pub enum ResolutionError {
    /// No resolution key at all was set on the partial user.
    NoKeyProvided,
    /// The chosen key matched no stored row.
    NotFound,
}

/// Failure of a field-level update.
#[derive(Debug, Clone, Copy, PartialEq, Eq, Structural)]
pub enum UpdateError {
    /// The caller presented no resolvable bearer token.
    Unauthenticated,
    /// The field is not on the allow-list of mutable fields.
    FieldNotAllowed,
    /// The new status value is not one of the status codes 0 to 3.
    InvalidStatus,
    /// The new email lacks an `@` or is shorter than 3 characters.
    InvalidEmail,
    /// The credential hash rejected the new password.
    HashingFailed,
    /// The conditional store write found no row with the user's identity.
    PersistenceFailed,
}

/// Failure of the registration workflow.
#[derive(Debug, Clone, Copy, PartialEq, Eq, Structural)]
pub enum RegistrationError {
    /// Username, email or password was empty.
    EmptyField,
    /// The email lacks an `@`.
    InvalidEmail,
    /// Username or password is shorter than 3 characters.
    TooShort,
    /// The username or the email is already taken.
    AlreadyExists,
    /// The store could not be queried at all.
    StoreUnavailable,
    /// The credential hash rejected the password.
    HashingFailed,
}

/// Failure of a login attempt.
#[derive(Debug, Clone, Copy, PartialEq, Eq, Structural)]
pub enum LoginError {
    /// No stored row has the given email.
    NotFound,
    /// The password does not verify against the stored hash.
    InvalidPassword,
}

} // verus!
