//! Field update authorizer: the allow-list of mutable fields, per-field
//! validation, and the conditional persistence of one validated change.

use vstd::prelude::*;
use vstd::string::*;
use crate::passwords::{hash_password_ret, verifies};
use crate::store::{Store, by_identity, find_index};
use crate::text::{contains_char, parse_status, status_ok, status_val, str_eq};
use crate::types::UpdateError;
use crate::user::{CompleteUser, CompleteUserV};

verus! {

/// The fixed allow-list of field names that the update path may mutate.
/// Everything else (identity, credentials issued by the server, badges,
/// administrative flags) is unreachable through this path.
pub open spec fn allowed_field(f: Seq<char>) -> bool {
    ||| f == "email"@
    ||| f == "password"@
    ||| f == "display_name"@
    ||| f == "status"@
    ||| f == "banner_color"@
    ||| f == "background_color"@
    ||| f == "description"@
}

/// A well-formed email: contains an `@` and has at least 3 characters.
pub open spec fn valid_email(v: Seq<char>) -> bool {
    v.contains('@') && v.len() >= 3
}

/// One field change that passed validation. A password arrives here only as
/// its one-way hash; a status only as a code 0 to 3.
pub enum ValidatedUpdate {
    Email(String),
    PasswordHash(String),
    DisplayName(String),
    Status(i8),
    BannerColor(String),
    BackgroundColor(String),
    Description(String),
}

pub enum ValidatedUpdateV {
    Email(Seq<char>),
    PasswordHash(Seq<char>),
    DisplayName(Seq<char>),
    Status(i8),
    BannerColor(Seq<char>),
    BackgroundColor(Seq<char>),
    Description(Seq<char>),
}

impl View for ValidatedUpdate {
    type V = ValidatedUpdateV;

    open spec fn view(&self) -> ValidatedUpdateV {
        match self {
            ValidatedUpdate::Email(v) => ValidatedUpdateV::Email(v@),
            ValidatedUpdate::PasswordHash(v) => ValidatedUpdateV::PasswordHash(v@),
            ValidatedUpdate::DisplayName(v) => ValidatedUpdateV::DisplayName(v@),
            ValidatedUpdate::Status(n) => ValidatedUpdateV::Status(*n),
            ValidatedUpdate::BannerColor(v) => ValidatedUpdateV::BannerColor(v@),
            ValidatedUpdate::BackgroundColor(v) => ValidatedUpdateV::BackgroundColor(v@),
            ValidatedUpdate::Description(v) => ValidatedUpdateV::Description(v@),
        }
    }
}

/// The validation error that the pair of field name and new value runs into,
/// if any. Hashing failures are not covered here: whether the credential
/// codec accepts a password is not a function of these arguments.
pub open spec fn spec_validate_err(f: Seq<char>, v: Seq<char>) -> Option<UpdateError> {
    if !allowed_field(f) {
        Some(UpdateError::FieldNotAllowed)
    } else if f == "status"@ && !status_ok(v) {
        Some(UpdateError::InvalidStatus)
    } else if f == "email"@ && !valid_email(v) {
        Some(UpdateError::InvalidEmail)
    } else {
        None
    }
}

/// The validated change for an allowed, valid, non-password field.
pub open spec fn spec_vu(f: Seq<char>, v: Seq<char>) -> ValidatedUpdateV {
    if f == "email"@ {
        ValidatedUpdateV::Email(v)
    } else if f == "display_name"@ {
        ValidatedUpdateV::DisplayName(v)
    } else if f == "status"@ {
        ValidatedUpdateV::Status(status_val(v))
    } else if f == "banner_color"@ {
        ValidatedUpdateV::BannerColor(v)
    } else if f == "background_color"@ {
        ValidatedUpdateV::BackgroundColor(v)
    } else {
        ValidatedUpdateV::Description(v)
    }
}

/// The record with one validated change applied.
pub open spec fn apply_upd(u: CompleteUserV, vu: ValidatedUpdateV) -> CompleteUserV {
    match vu {
        ValidatedUpdateV::Email(v) => CompleteUserV { email: v, ..u },
        ValidatedUpdateV::PasswordHash(h) => CompleteUserV { password_hash: h, ..u },
        ValidatedUpdateV::DisplayName(v) => CompleteUserV { display_name: v, ..u },
        ValidatedUpdateV::Status(n) => CompleteUserV { status: n, ..u },
        ValidatedUpdateV::BannerColor(v) => CompleteUserV { banner_color: Some(v), ..u },
        ValidatedUpdateV::BackgroundColor(v) => CompleteUserV { background_color: Some(v), ..u },
        ValidatedUpdateV::Description(v) => CompleteUserV { description: Some(v), ..u },
    }
}

/// Enough of the allow-listed field names to tell them all apart: lengths,
/// and a first character where two lengths coincide.
proof fn lemma_field_literals()
    ensures
        "email"@.len() == 5,
        "password"@.len() == 8,
        "password"@[0] == 'p',
        "display_name"@.len() == 12,
        "display_name"@[0] == 'd',
        "status"@.len() == 6,
        "banner_color"@.len() == 12,
        "banner_color"@[0] == 'b',
        "background_color"@.len() == 16,
        "description"@.len() == 11,
{
    reveal_strlit("email");
    reveal_strlit("password");
    reveal_strlit("display_name");
    reveal_strlit("status");
    reveal_strlit("banner_color");
    reveal_strlit("background_color");
    reveal_strlit("description");
}

/// Validates one requested field change against the allow-list and the
/// per-field rules; hashes a new password through the credential codec.
pub fn validate_update(change_field: &str, new_value: String) -> (r: Result<
    ValidatedUpdate,
    UpdateError,
>)
    ensures
        spec_validate_err(change_field@, new_value@) matches Some(e) ==> r matches Err(e2) && e2
            == e,
        spec_validate_err(change_field@, new_value@) is None && change_field@ != "password"@ ==> (
        r matches Ok(vu) && vu@ == spec_vu(change_field@, new_value@)),
        spec_validate_err(change_field@, new_value@) is None && change_field@ == "password"@
            ==> match r {
            Ok(vu) => vu@ matches ValidatedUpdateV::PasswordHash(h) && verifies(new_value@, h),
            Err(e) => e == UpdateError::HashingFailed,
        },
{
    proof {
        lemma_field_literals();
    }
    if str_eq(change_field, "email") {
        if !contains_char(new_value.as_str(), '@') || new_value.as_str().unicode_len() < 3 {
            Err(UpdateError::InvalidEmail)
        } else {
            Ok(ValidatedUpdate::Email(new_value))
        }
    } else if str_eq(change_field, "password") {
        match hash_password_ret(&new_value) {
            Ok(h) => Ok(ValidatedUpdate::PasswordHash(h)),
            Err(_) => Err(UpdateError::HashingFailed),
        }
    } else if str_eq(change_field, "display_name") {
        Ok(ValidatedUpdate::DisplayName(new_value))
    } else if str_eq(change_field, "status") {
        match parse_status(new_value.as_str()) {
            Some(n) => Ok(ValidatedUpdate::Status(n)),
            None => Err(UpdateError::InvalidStatus),
        }
    } else if str_eq(change_field, "banner_color") {
        Ok(ValidatedUpdate::BannerColor(new_value))
    } else if str_eq(change_field, "background_color") {
        Ok(ValidatedUpdate::BackgroundColor(new_value))
    } else if str_eq(change_field, "description") {
        Ok(ValidatedUpdate::Description(new_value))
    } else {
        Err(UpdateError::FieldNotAllowed)
    }
}

/// How one update call relates store and result: the first row carrying the
/// user's immutable identity is rewritten, or nothing changes and the update
/// reports that persistence failed.
pub open spec fn update_applied(
    s0: Seq<CompleteUserV>,
    s1: Seq<CompleteUserV>,
    u: CompleteUserV,
    vu: ValidatedUpdateV,
    r: Result<CompleteUser, UpdateError>,
) -> bool {
    let i = find_index(s0, by_identity(u.username, u.user_id, u.created_at));
    if i < 0 {
        s1 == s0 && (r matches Err(e) && e == UpdateError::PersistenceFailed)
    } else {
        s1 == s0.update(i, apply_upd(s0[i], vu)) && (r matches Ok(u2) && u2@ == apply_upd(u, vu))
    }
}

/// The full contract of one update call on the user `u`: validation failures
/// leave the store untouched and report the exact error; an allowed,
/// valid change is applied both to the first row carrying the user's
/// immutable identity and to the returned user; a new password lands only as
/// a hash that verifies against it, or the update reports that hashing
/// failed and changes nothing.
pub open spec fn update_outcome(
    s0: Seq<CompleteUserV>,
    s1: Seq<CompleteUserV>,
    u: CompleteUserV,
    f: Seq<char>,
    v: Seq<char>,
    r: Result<CompleteUser, UpdateError>,
) -> bool {
    &&& (spec_validate_err(f, v) matches Some(e) ==> s1 == s0 && (r matches Err(e2) && e2 == e))
    &&& (spec_validate_err(f, v) is None && f != "password"@ ==> update_applied(
        s0,
        s1,
        u,
        spec_vu(f, v),
        r,
    ))
    &&& (spec_validate_err(f, v) is None && f == "password"@ ==> ((s1 == s0 && (r matches Err(e)
        && e == UpdateError::HashingFailed)) || (exists|h: Seq<char>|
        verifies(v, h) && update_applied(s0, s1, u, ValidatedUpdateV::PasswordHash(h), r))))
}

impl CompleteUser {
    /// This user with one validated change applied in memory.
    pub fn apply_validated(self, vu: &ValidatedUpdate) -> (r: CompleteUser)
        ensures
            r@ == apply_upd(self@, vu@),
    {
        let mut u = self;
        match vu {
            ValidatedUpdate::Email(v) => {
                u.email = v.clone();
            },
            ValidatedUpdate::PasswordHash(h) => {
                u.password_hash = h.clone();
            },
            ValidatedUpdate::DisplayName(v) => {
                u.display_name = v.clone();
            },
            ValidatedUpdate::Status(n) => {
                u.status = *n;
            },
            ValidatedUpdate::BannerColor(v) => {
                u.banner_color = Some(v.clone());
            },
            ValidatedUpdate::BackgroundColor(v) => {
                u.background_color = Some(v.clone());
            },
            ValidatedUpdate::Description(v) => {
                u.description = Some(v.clone());
            },
        }
        u
    }

    /// Validates and applies one field change for this resolved user: the
    /// store row matching the immutable identity (username, user identifier,
    /// creation date) is conditionally rewritten, and the returned user
    /// reflects the new value. On any failure the store is untouched.
    pub fn update(self, store: &mut Store, change_field: &str, new_value: String) -> (r: Result<
        CompleteUser,
        UpdateError,
    >)
        ensures
            update_outcome(old(store)@, final(store)@, self@, change_field@, new_value@, r),
    {
        let vu = match validate_update(change_field, new_value) {
            Ok(vu) => vu,
            Err(e) => {
                return Err(e);
            },
        };
        match store.index_of_identity(self.username.as_str(), self.user_id, self.created_at) {
            None => Err(UpdateError::PersistenceFailed),
            Some(i) => {
                let row = store.row(i);
                store.set_row(i, row.apply_validated(&vu));
                Ok(self.apply_validated(&vu))
            },
        }
    }
}

/// No validated change ever touches the administrative flag, the identity
/// fields, the bearer token, the badges or the relationship map: the
/// allow-list protects them all.
pub proof fn lemma_update_preserves_protected_fields(u: CompleteUserV, vu: ValidatedUpdateV)
    ensures
        apply_upd(u, vu).is_admin == u.is_admin,
        apply_upd(u, vu).user_id == u.user_id,
        apply_upd(u, vu).jwt == u.jwt,
        apply_upd(u, vu).username == u.username,
        apply_upd(u, vu).created_at == u.created_at,
        apply_upd(u, vu).badges == u.badges,
        apply_upd(u, vu).friends == u.friends,
{
}

/// Whatever one update call did — succeeded, failed validation, failed to
/// hash or failed to persist — the administrative flag of every stored row
/// is exactly what it was before.
pub proof fn lemma_store_is_admin_preserved(
    s0: Seq<CompleteUserV>,
    s1: Seq<CompleteUserV>,
    u: CompleteUserV,
    f: Seq<char>,
    v: Seq<char>,
    r: Result<CompleteUser, UpdateError>,
)
    requires
        update_outcome(s0, s1, u, f, v, r),
    ensures
        s1.len() == s0.len(),
        forall|j: int| 0 <= j < s0.len() ==> s1[j].is_admin == s0[j].is_admin,
{
    if spec_validate_err(f, v) is None {
        if f != "password"@ {
            lemma_applied_preserves_is_admin(s0, s1, u, spec_vu(f, v), r);
        } else if s1 != s0 {
            let h = choose|h: Seq<char>|
                verifies(v, h) && update_applied(s0, s1, u, ValidatedUpdateV::PasswordHash(h), r);
            lemma_applied_preserves_is_admin(s0, s1, u, ValidatedUpdateV::PasswordHash(h), r);
        }
    }
}

proof fn lemma_applied_preserves_is_admin(
    s0: Seq<CompleteUserV>,
    s1: Seq<CompleteUserV>,
    u: CompleteUserV,
    vu: ValidatedUpdateV,
    r: Result<CompleteUser, UpdateError>,
)
    requires
        update_applied(s0, s1, u, vu, r),
    ensures
        s1.len() == s0.len(),
        forall|j: int| 0 <= j < s0.len() ==> s1[j].is_admin == s0[j].is_admin,
{
    let i = find_index(s0, by_identity(u.username, u.user_id, u.created_at));
    if i >= 0 {
        crate::store::lemma_find_found(s0, by_identity(u.username, u.user_id, u.created_at));
        lemma_update_preserves_protected_fields(s0[i], vu);
    }
}

/// The administrative flag is not an allowed field: asking to update
/// `is_admin` always fails with `FieldNotAllowed`, whatever the value.
pub proof fn lemma_is_admin_field_rejected(v: Seq<char>)
    ensures
        spec_validate_err("is_admin"@, v) == Some(UpdateError::FieldNotAllowed),
{
    lemma_field_literals();
    reveal_strlit("is_admin");
    assert("is_admin"@.len() == 8);
    assert("is_admin"@[0] == 'i');
    assert(!allowed_field("is_admin"@));
}

} // verus!
