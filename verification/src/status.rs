//! Presence status changes: the one-field update path for the status code,
//! keyed by the caller's bearer token.

use vstd::prelude::*;
use crate::store::{
    Store, by_identity, by_jwt, find_by_jwt, find_index, lemma_find_found, lemma_find_not_found,
};
use crate::types::UpdateError;
use crate::update::{ValidatedUpdate, ValidatedUpdateV, apply_upd};

verus! {

/// A status change request: the new presence code.
pub struct RequestUser {
    pub status: u8,
}

/// Sets the presence status of the user resolved by `jwt` to
/// `payload.status`, which must be one of the codes 0 to 3.
pub fn set_status(store: &mut Store, jwt: u128, payload: RequestUser) -> (r: Result<
    (),
    UpdateError,
>)
    ensures
        ({
            let s0 = old(store)@;
            let s1 = final(store)@;
            match find_by_jwt(s0, jwt) {
                None => s1 == s0 && (r matches Err(e) && e == UpdateError::Unauthenticated),
                Some(u) => if payload.status > 3 {
                    s1 == s0 && (r matches Err(e) && e == UpdateError::InvalidStatus)
                } else {
                    let i = find_index(s0, by_identity(u.username, u.user_id, u.created_at));
                    i >= 0 && s1 == s0.update(
                        i,
                        apply_upd(s0[i], ValidatedUpdateV::Status(payload.status as i8)),
                    ) && r is Ok
                },
            }
        }),
{
    let user = match store.lookup_by_jwt(jwt) {
        Some(u) => u,
        None => {
            return Err(UpdateError::Unauthenticated);
        },
    };
    if payload.status > 3 {
        return Err(UpdateError::InvalidStatus);
    }
    let vu = ValidatedUpdate::Status(payload.status as i8);
    match store.index_of_identity(user.username.as_str(), user.user_id, user.created_at) {
        None => {
            proof {
                // The row the token resolved to carries its own identity, so
                // the identity search cannot come up empty.
                lemma_find_found(store@, by_jwt(jwt));
                let k = find_index(store@, by_jwt(jwt));
                assert(by_identity(user@.username, user@.user_id, user@.created_at)(store@[k]));
                lemma_find_not_found(
                    store@,
                    by_identity(user@.username, user@.user_id, user@.created_at),
                );
                assert(false);
            }
            Err(UpdateError::PersistenceFailed)
        },
        Some(i) => {
            let row = store.row(i);
            store.set_row(i, row.apply_validated(&vu));
            Ok(())
        },
    }
}

} // verus!
