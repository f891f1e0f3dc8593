//! The two user shapes: a partial user carrying exactly one resolution key,
//! and a complete user carrying every persisted field.

use vstd::prelude::*;
use crate::store::{Store, find_by_id, find_by_jwt, find_by_email};
use crate::types::ResolutionError;

verus! {

/// Spec-level image of a fully populated user record.
pub struct CompleteUserV {
    pub created_at: u64,
    pub user_id: u128,
    pub jwt: u128,
    pub username: Seq<char>,
    pub email: Seq<char>,
    pub password_hash: Seq<char>,
    pub display_name: Seq<char>,
    pub friends: Seq<(u128, i8)>,
    pub badges: Seq<u128>,
    pub status: i8,
    pub banner_color: Option<Seq<char>>,
    pub background_color: Option<Seq<char>>,
    pub is_admin: Option<bool>,
    pub description: Option<Seq<char>>,
}

pub open spec fn opt_str_view(o: Option<String>) -> Option<Seq<char>> {
    match o {
        Some(s) => Some(s@),
        None => None,
    }
}

/// A user record with every persisted field populated, as the resolver
/// returns it and as the store keeps it. Fields that storage may leave
/// absent stay `Option`.
pub struct CompleteUser {
    pub created_at: u64,
    pub user_id: u128,
    pub jwt: u128,
    pub username: String,
    pub email: String,
    pub password_hash: String,
    pub display_name: String,
    pub friends: Vec<(u128, i8)>,
    pub badges: Vec<u128>,
    pub status: i8,
    pub banner_color: Option<String>,
    pub background_color: Option<String>,
    pub is_admin: Option<bool>,
    pub description: Option<String>,
}

impl View for CompleteUser {
    type V = CompleteUserV;

    open spec fn view(&self) -> CompleteUserV {
        CompleteUserV {
            created_at: self.created_at,
            user_id: self.user_id,
            jwt: self.jwt,
            username: self.username@,
            email: self.email@,
            password_hash: self.password_hash@,
            display_name: self.display_name@,
            friends: self.friends@,
            badges: self.badges@,
            status: self.status,
            banner_color: opt_str_view(self.banner_color),
            background_color: opt_str_view(self.background_color),
            is_admin: self.is_admin,
            description: opt_str_view(self.description),
        }
    }
}

fn clone_pairs(v: &Vec<(u128, i8)>) -> (r: Vec<(u128, i8)>)
    ensures
        r@ == v@,
{
    let mut r: Vec<(u128, i8)> = Vec::new();
    let n = v.len();
    let mut i: usize = 0;
    while i < n
        invariant
            n == v@.len(),
            i <= n,
            r@ == v@.take(i as int),
        decreases n - i,
    {
        r.push(v[i]);
        proof {
            assert(v@.take(i + 1) =~= v@.take(i as int).push(v@[i as int]));
        }
        i += 1;
    }
    proof {
        assert(v@.take(n as int) =~= v@);
    }
    r
}

fn clone_ids(v: &Vec<u128>) -> (r: Vec<u128>)
    ensures
        r@ == v@,
{
    let mut r: Vec<u128> = Vec::new();
    let n = v.len();
    let mut i: usize = 0;
    while i < n
        invariant
            n == v@.len(),
            i <= n,
            r@ == v@.take(i as int),
        decreases n - i,
    {
        r.push(v[i]);
        proof {
            assert(v@.take(i + 1) =~= v@.take(i as int).push(v@[i as int]));
        }
        i += 1;
    }
    proof {
        assert(v@.take(n as int) =~= v@);
    }
    r
}

fn clone_opt_string(o: &Option<String>) -> (r: Option<String>)
    ensures
        opt_str_view(r) == opt_str_view(*o),
{
    match o {
        Some(s) => Some(s.clone()),
        None => None,
    }
}

impl Clone for CompleteUser {
    fn clone(&self) -> (r: Self)
        ensures
            r@ == self@,
    {
        CompleteUser {
            created_at: self.created_at,
            user_id: self.user_id,
            jwt: self.jwt,
            username: self.username.clone(),
            email: self.email.clone(),
            password_hash: self.password_hash.clone(),
            display_name: self.display_name.clone(),
            friends: clone_pairs(&self.friends),
            badges: clone_ids(&self.badges),
            status: self.status,
            banner_color: clone_opt_string(&self.banner_color),
            background_color: clone_opt_string(&self.background_color),
            is_admin: self.is_admin,
            description: clone_opt_string(&self.description),
        }
    }
}

/// Spec-level image of a partial user: at most one resolution key.
pub struct UserV {
    pub user_id: Option<u128>,
    pub jwt: Option<u128>,
    pub email: Option<Seq<char>>,
}

/// A partial user: a resolution key object. Exactly one of the three keys is
/// expected to be set; when several are, resolution prioritizes
/// `user_id` over `jwt` over `email`.
pub struct User {
    pub user_id: Option<u128>,
    pub jwt: Option<u128>,
    pub email: Option<String>,
}

impl View for User {
    type V = UserV;

    open spec fn view(&self) -> UserV {
        UserV { user_id: self.user_id, jwt: self.jwt, email: opt_str_view(self.email) }
    }
}

/// The record that resolving the partial user `p` against the rows `s`
/// yields: a point lookup by the highest-priority key set on `p`.
pub open spec fn resolve_spec(s: Seq<CompleteUserV>, p: UserV) -> Result<
    CompleteUserV,
    ResolutionError,
> {
    match p.user_id {
        Some(id) => match find_by_id(s, id) {
            Some(u) => Ok(u),
            None => Err(ResolutionError::NotFound),
        },
        None => match p.jwt {
            Some(t) => match find_by_jwt(s, t) {
                Some(u) => Ok(u),
                None => Err(ResolutionError::NotFound),
            },
            None => match p.email {
                Some(e) => match find_by_email(s, e) {
                    Some(u) => Ok(u),
                    None => Err(ResolutionError::NotFound),
                },
                None => Err(ResolutionError::NoKeyProvided),
            },
        },
    }
}

pub open spec fn resolution_view(r: Result<CompleteUser, ResolutionError>) -> Result<
    CompleteUserV,
    ResolutionError,
> {
    match r {
        Ok(u) => Ok(u@),
        Err(e) => Err(e),
    }
}

impl User {
    /// Creates a partial user from a user identifier.
    pub fn from_user_id(user_id: u128) -> (u: User)
        ensures
            u@ == (UserV { user_id: Some(user_id), jwt: None, email: None }),
    {
        User { user_id: Some(user_id), jwt: None, email: None }
    }

    /// Creates a partial user from a bearer token.
    pub fn from_user_jwt(jwt: u128) -> (u: User)
        ensures
            u@ == (UserV { user_id: None, jwt: Some(jwt), email: None }),
    {
        User { user_id: None, jwt: Some(jwt), email: None }
    }

    /// Creates a partial user from an email address.
    pub fn from_user_email(email: String) -> (u: User)
        ensures
            u@ == (UserV { user_id: None, jwt: None, email: Some(email@) }),
    {
        User { user_id: None, jwt: None, email: Some(email) }
    }

    /// Resolves this partial user to the first stored row matching its
    /// highest-priority key; read-only on the store.
    pub fn fill_info(self, store: &Store) -> (r: Result<CompleteUser, ResolutionError>)
        ensures
            resolution_view(r) == resolve_spec(store@, self@),
    {
        if let Some(id) = self.user_id {
            match store.lookup_by_id(id) {
                Some(u) => Ok(u),
                None => Err(ResolutionError::NotFound),
            }
        } else if let Some(t) = self.jwt {
            match store.lookup_by_jwt(t) {
                Some(u) => Ok(u),
                None => Err(ResolutionError::NotFound),
            }
        } else if let Some(e) = self.email {
            match store.lookup_by_email(e.as_str()) {
                Some(u) => Ok(u),
                None => Err(ResolutionError::NotFound),
            }
        } else {
            Err(ResolutionError::NoKeyProvided)
        }
    }
}

/// Resolution is keyed solely by the one key that decides: two partial users
/// that both set `user_id` to the same identifier resolve identically,
/// whatever else is known about the bearer token or the email.
pub proof fn lemma_resolution_key_exclusive(s: Seq<CompleteUserV>, p1: UserV, p2: UserV, id: u128)
    requires
        p1.user_id == Some(id),
        p2.user_id == Some(id),
    ensures
        resolve_spec(s, p1) == resolve_spec(s, p2),
{
}

/// With no identifier set, the bearer token decides alone in the same way,
/// whatever is known about the email.
pub proof fn lemma_resolution_token_priority(s: Seq<CompleteUserV>, p1: UserV, p2: UserV, t: u128)
    requires
        p1.user_id is None,
        p2.user_id is None,
        p1.jwt == Some(t),
        p2.jwt == Some(t),
    ensures
        resolve_spec(s, p1) == resolve_spec(s, p2),
{
}

} // verus!
