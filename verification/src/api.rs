//! The operation surface handed to the routing layer: resolution by each
//! key, the field update path, friend listing, and the admin check.

use vstd::prelude::*;
use crate::friend::{Friend, aggregate_spec, friends_view};
use crate::store::{Store, find_by_email, find_by_id, find_by_jwt};
use crate::types::{ResolutionError, UpdateError};
use crate::update::update_outcome;
use crate::user::{CompleteUser, User};

verus! {

/// Public profile of the user with the given identifier: the whole resolved
/// record is handed back for the routing layer to project.
pub fn get_info(store: &Store, user_id: u128) -> (r: Result<CompleteUser, ResolutionError>)
    ensures
        match find_by_id(store@, user_id) {
            Some(u) => r matches Ok(c) && c@ == u,
            None => r matches Err(e) && e == ResolutionError::NotFound,
        },
{
    match User::from_user_id(user_id).fill_info(store) {
        Ok(u) => Ok(u),
        Err(_) => Err(ResolutionError::NotFound),
    }
}

/// The caller's own record, resolved by bearer token.
pub fn get_self_info(store: &Store, jwt: u128) -> (r: Result<CompleteUser, ResolutionError>)
    ensures
        match find_by_jwt(store@, jwt) {
            Some(u) => r matches Ok(c) && c@ == u,
            None => r matches Err(e) && e == ResolutionError::NotFound,
        },
{
    match User::from_user_jwt(jwt).fill_info(store) {
        Ok(u) => Ok(u),
        Err(_) => Err(ResolutionError::NotFound),
    }
}

/// The caller's record, resolved by email.
pub fn resolve_by_email(store: &Store, email: &str) -> (r: Result<CompleteUser, ResolutionError>)
    ensures
        match find_by_email(store@, email@) {
            Some(u) => r matches Ok(c) && c@ == u,
            None => r matches Err(e) && e == ResolutionError::NotFound,
        },
{
    match store.lookup_by_email(email) {
        Some(u) => Ok(u),
        None => Err(ResolutionError::NotFound),
    }
}

/// Whether the user with the given identifier is an administrator; a row
/// whose administrative flag storage left unset counts as not one.
pub fn is_admin(store: &Store, user_id: u128) -> (r: Result<bool, ResolutionError>)
    ensures
        match find_by_id(store@, user_id) {
            Some(u) => r matches Ok(b) && b == (u.is_admin == Some(true)),
            None => r matches Err(e) && e == ResolutionError::NotFound,
        },
{
    match store.lookup_by_id(user_id) {
        Some(u) => match u.is_admin {
            Some(b) => Ok(b),
            None => Ok(false),
        },
        None => Err(ResolutionError::NotFound),
    }
}

/// The caller's friend list, resolved by bearer token and expanded into
/// filled friend views.
pub fn get_friends(store: &Store, jwt: u128) -> (r: Result<Vec<Friend>, ResolutionError>)
    ensures
        match find_by_jwt(store@, jwt) {
            Some(u) => r matches Ok(v) && friends_view(v@) == aggregate_spec(store@, u.friends),
            None => r matches Err(e) && e == ResolutionError::NotFound,
        },
{
    match store.lookup_by_jwt(jwt) {
        Some(u) => Ok(u.fetch_friends(store)),
        None => Err(ResolutionError::NotFound),
    }
}

/// Applies one field change for the user resolved by bearer token: the
/// token is the coarse ownership proof, and an unresolvable token fails
/// before anything else is looked at.
pub fn update_field(store: &mut Store, jwt: u128, change_field: &str, new_value: String) -> (r:
    Result<CompleteUser, UpdateError>)
    ensures
        find_by_jwt(old(store)@, jwt) is None ==> final(store)@ == old(store)@ && (r matches Err(e)
            && e == UpdateError::Unauthenticated),
        find_by_jwt(old(store)@, jwt) matches Some(u) ==> update_outcome(
            old(store)@,
            final(store)@,
            u,
            change_field@,
            new_value@,
            r,
        ),
{
    match store.lookup_by_jwt(jwt) {
        Some(u) => u.update(store, change_field, new_value),
        None => Err(UpdateError::Unauthenticated),
    }
}

} // verus!
