//! Registration workflow: input validation, uniqueness checking, and atomic
//! creation of a new user row with freshly generated identifiers.

use vstd::prelude::*;
use vstd::string::*;
use crate::passwords::{hash_password_ret, verifies};
use crate::store::{Store, exists_email, exists_username};
use crate::text::contains_char;
use crate::types::RegistrationError;
use crate::user::{CompleteUser, CompleteUserV};

verus! {

/// A registration request: the three caller-chosen fields.
pub struct RequestUser {
    pub email: String,
    pub password: String,
    pub username: String,
}

/// Relies on `uuid::Uuid::new_v4`, which draws a fresh random 128-bit
/// identifier; nothing is promised of the value.
#[verifier::external_body]
pub fn fresh_id() -> u128 {
    uuid::Uuid::new_v4().as_u128()
}

/// The first input-validation failure of a registration request, if any:
/// all fields non-empty, then the email contains an `@`, then username and
/// password are each at least 3 characters.
pub open spec fn reg_input_err(
    username: Seq<char>,
    email: Seq<char>,
    password: Seq<char>,
) -> Option<RegistrationError> {
    if username.len() == 0 || email.len() == 0 || password.len() == 0 {
        Some(RegistrationError::EmptyField)
    } else if !email.contains('@') {
        Some(RegistrationError::InvalidEmail)
    } else if password.len() < 3 || username.len() < 3 {
        Some(RegistrationError::TooShort)
    } else {
        None
    }
}

/// The failure a registration request runs into against the rows `s`, if
/// any: an input-validation failure, or a username or email already taken.
pub open spec fn reg_err(
    s: Seq<CompleteUserV>,
    username: Seq<char>,
    email: Seq<char>,
    password: Seq<char>,
) -> Option<RegistrationError> {
    match reg_input_err(username, email, password) {
        Some(e) => Some(e),
        None => if exists_username(s, username) || exists_email(s, email) {
            Some(RegistrationError::AlreadyExists)
        } else {
            None
        },
    }
}

/// The row a successful registration inserts: display name starts out as the
/// username, no friends, no badges, status 0, not an administrator.
pub open spec fn new_user_v(
    user_id: u128,
    jwt: u128,
    username: Seq<char>,
    email: Seq<char>,
    password_hash: Seq<char>,
    today: u64,
) -> CompleteUserV {
    CompleteUserV {
        created_at: today,
        user_id: user_id,
        jwt: jwt,
        username: username,
        email: email,
        password_hash: password_hash,
        display_name: username,
        friends: Seq::empty(),
        badges: Seq::empty(),
        status: 0,
        banner_color: None,
        background_color: None,
        is_admin: Some(false),
        description: None,
    }
}

/// Checks the three request fields, in order, short-circuiting on the first
/// violation.
pub fn validate_registration(payload: &RequestUser) -> (r: Option<RegistrationError>)
    ensures
        r == reg_input_err(payload.username@, payload.email@, payload.password@),
{
    let ulen = payload.username.as_str().unicode_len();
    let elen = payload.email.as_str().unicode_len();
    let plen = payload.password.as_str().unicode_len();
    if ulen == 0 || elen == 0 || plen == 0 {
        Some(RegistrationError::EmptyField)
    } else if !contains_char(payload.email.as_str(), '@') {
        Some(RegistrationError::InvalidEmail)
    } else if plen < 3 || ulen < 3 {
        Some(RegistrationError::TooShort)
    } else {
        None
    }
}

/// Registers a new user: validates the request, rejects a taken username or
/// email, then inserts a freshly identified row whose password is stored
/// only as its one-way hash. Returns the generated bearer token and user
/// identifier.
pub fn register(store: &mut Store, payload: RequestUser, today: u64) -> (r: Result<
    (u128, u128),
    RegistrationError,
>)
    ensures
        reg_err(old(store)@, payload.username@, payload.email@, payload.password@) matches Some(e)
            ==> final(store)@ == old(store)@ && (r matches Err(e2) && e2 == e),
        reg_err(old(store)@, payload.username@, payload.email@, payload.password@) is None
            ==> match r {
            Err(e) => e == RegistrationError::HashingFailed && final(store)@ == old(store)@,
            Ok((jwt, user_id)) => exists|h: Seq<char>|
                verifies(payload.password@, h) && final(store)@ == old(store)@.push(
                    new_user_v(user_id, jwt, payload.username@, payload.email@, h, today),
                ),
        },
{
    if let Some(e) = validate_registration(&payload) {
        return Err(e);
    }
    if store.contains_username(payload.username.as_str()) || store.contains_email(
        payload.email.as_str(),
    ) {
        return Err(RegistrationError::AlreadyExists);
    }
    let gen_jwt = fresh_id();
    let gen_user_id = fresh_id();
    let hash = match hash_password_ret(&payload.password) {
        Ok(h) => h,
        Err(_) => {
            return Err(RegistrationError::HashingFailed);
        },
    };
    let display_name = payload.username.clone();
    let rec = CompleteUser {
        created_at: today,
        user_id: gen_user_id,
        jwt: gen_jwt,
        username: payload.username,
        email: payload.email,
        password_hash: hash,
        display_name: display_name,
        friends: Vec::new(),
        badges: Vec::new(),
        status: 0,
        banner_color: None,
        background_color: None,
        is_admin: Some(false),
        description: None,
    };
    proof {
        assert(rec@.friends =~= Seq::<(u128, i8)>::empty());
        assert(rec@.badges =~= Seq::<u128>::empty());
    }
    store.push_row(rec);
    Ok((gen_jwt, gen_user_id))
}

/// Registering a username a second time is rejected: once a row with that
/// username is in the store, any further valid request for the same username
/// fails with `AlreadyExists`, whatever its email and password.
pub proof fn lemma_registration_idempotent_rejection(
    s: Seq<CompleteUserV>,
    rec: CompleteUserV,
    email2: Seq<char>,
    password2: Seq<char>,
)
    requires
        reg_input_err(rec.username, email2, password2) is None,
    ensures
        reg_err(s.push(rec), rec.username, email2, password2) == Some(
            RegistrationError::AlreadyExists,
        ),
{
    assert(s.push(rec)[s.len() as int] == rec);
    assert(exists_username(s.push(rec), rec.username));
}

} // verus!
