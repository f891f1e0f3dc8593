//! The abstract keyed user store, modelled in memory: point lookup by any of
//! four independently usable keys, a conditional row update keyed by the
//! immutable composite identity, and insertion of new rows.

use vstd::prelude::*;
use crate::text::str_eq;
use crate::user::{CompleteUser, CompleteUserV};

verus! {

/// Index of the first row satisfying `p`, or -1 when none does.
pub open spec fn find_index(s: Seq<CompleteUserV>, p: spec_fn(CompleteUserV) -> bool) -> int
    decreases s.len(),
{
    if s.len() == 0 {
        -1
    } else if p(s[0]) {
        0
    } else {
        let r = find_index(s.drop_first(), p);
        if r < 0 {
            -1
        } else {
            r + 1
        }
    }
}

/// The first row satisfying `p`, if any.
pub open spec fn find_first(s: Seq<CompleteUserV>, p: spec_fn(CompleteUserV) -> bool) -> Option<
    CompleteUserV,
> {
    if find_index(s, p) < 0 {
        None
    } else {
        Some(s[find_index(s, p)])
    }
}

pub open spec fn by_user_id(id: u128) -> spec_fn(CompleteUserV) -> bool {
    |u: CompleteUserV| u.user_id == id
}

pub open spec fn by_jwt(jwt: u128) -> spec_fn(CompleteUserV) -> bool {
    |u: CompleteUserV| u.jwt == jwt
}

pub open spec fn by_email(email: Seq<char>) -> spec_fn(CompleteUserV) -> bool {
    |u: CompleteUserV| u.email == email
}

/// The immutable composite identity the conditional update is keyed by.
pub open spec fn by_identity(username: Seq<char>, user_id: u128, created_at: u64) -> spec_fn(
    CompleteUserV,
) -> bool {
    |u: CompleteUserV| u.username == username && u.user_id == user_id && u.created_at == created_at
}

pub open spec fn find_by_id(s: Seq<CompleteUserV>, id: u128) -> Option<CompleteUserV> {
    find_first(s, by_user_id(id))
}

pub open spec fn find_by_jwt(s: Seq<CompleteUserV>, jwt: u128) -> Option<CompleteUserV> {
    find_first(s, by_jwt(jwt))
}

pub open spec fn find_by_email(s: Seq<CompleteUserV>, email: Seq<char>) -> Option<CompleteUserV> {
    find_first(s, by_email(email))
}

pub open spec fn exists_username(s: Seq<CompleteUserV>, username: Seq<char>) -> bool {
    exists|i: int| 0 <= i < s.len() && s[i].username == username
}

pub open spec fn exists_email(s: Seq<CompleteUserV>, email: Seq<char>) -> bool {
    exists|i: int| 0 <= i < s.len() && s[i].email == email
}

pub proof fn lemma_find_prefix(s: Seq<CompleteUserV>, p: spec_fn(CompleteUserV) -> bool, i: int)
    requires
        0 <= i < s.len(),
        forall|j: int| 0 <= j < i ==> !p(s[j]),
        p(s[i]),
    ensures
        find_index(s, p) == i,
    decreases i,
{
    if i > 0 {
        lemma_find_prefix(s.drop_first(), p, i - 1);
    }
}

pub proof fn lemma_find_none(s: Seq<CompleteUserV>, p: spec_fn(CompleteUserV) -> bool)
    requires
        forall|j: int| 0 <= j < s.len() ==> !p(s[j]),
    ensures
        find_index(s, p) == -1,
    decreases s.len(),
{
    if s.len() > 0 {
        lemma_find_none(s.drop_first(), p);
    }
}

pub proof fn lemma_find_found(s: Seq<CompleteUserV>, p: spec_fn(CompleteUserV) -> bool)
    requires
        find_index(s, p) >= 0,
    ensures
        find_index(s, p) < s.len(),
        p(s[find_index(s, p)]),
    decreases s.len(),
{
    if s.len() > 0 && !p(s[0]) {
        lemma_find_found(s.drop_first(), p);
    }
}

pub proof fn lemma_find_not_found(s: Seq<CompleteUserV>, p: spec_fn(CompleteUserV) -> bool)
    requires
        find_index(s, p) == -1,
    ensures
        forall|j: int| 0 <= j < s.len() ==> !p(s[j]),
    decreases s.len(),
{
    if s.len() > 0 {
        lemma_find_not_found(s.drop_first(), p);
        assert forall|j: int| 0 <= j < s.len() implies !p(s[j]) by {
            if j > 0 {
                assert(s.drop_first()[j - 1] == s[j]);
            }
        }
    }
}

/// The in-memory user store: a bag of complete rows. Nothing in the store
/// itself enforces key uniqueness; lookups return the first matching row.
pub struct Store {
    users: Vec<CompleteUser>,
}

impl View for Store {
    type V = Seq<CompleteUserV>;

    closed spec fn view(&self) -> Seq<CompleteUserV> {
        self.users@.map_values(|u: CompleteUser| u@)
    }
}

impl Store {
    /// An empty store.
    pub fn new() -> (s: Store)
        ensures
            s@ == Seq::<CompleteUserV>::empty(),
    {
        let s = Store { users: Vec::new() };
        proof {
            assert(s@ =~= Seq::<CompleteUserV>::empty());
        }
        s
    }

    /// Point lookup by user identifier: a copy of the first matching row.
    pub fn lookup_by_id(&self, id: u128) -> (r: Option<CompleteUser>)
        ensures
            match r {
                Some(u) => find_by_id(self@, id) == Some(u@),
                None => find_by_id(self@, id) is None,
            },
    {
        let n = self.users.len();
        let mut i: usize = 0;
        while i < n
            invariant
                n == self.users@.len(),
                n == self@.len(),
                i <= n,
                forall|j: int| 0 <= j < i ==> !(#[trigger] by_user_id(id)(self@[j])),
            decreases n - i,
        {
            if self.users[i].user_id == id {
                proof {
                    assert(by_user_id(id)(self@[i as int]));
                    lemma_find_prefix(self@, by_user_id(id), i as int);
                }
                return Some(self.users[i].clone());
            }
            proof {
                assert(!by_user_id(id)(self@[i as int]));
            }
            i += 1;
        }
        proof {
            lemma_find_none(self@, by_user_id(id));
        }
        None
    }

    /// Point lookup by bearer token: a copy of the first matching row.
    pub fn lookup_by_jwt(&self, jwt: u128) -> (r: Option<CompleteUser>)
        ensures
            match r {
                Some(u) => find_by_jwt(self@, jwt) == Some(u@),
                None => find_by_jwt(self@, jwt) is None,
            },
    {
        let n = self.users.len();
        let mut i: usize = 0;
        while i < n
            invariant
                n == self.users@.len(),
                n == self@.len(),
                i <= n,
                forall|j: int| 0 <= j < i ==> !(#[trigger] by_jwt(jwt)(self@[j])),
            decreases n - i,
        {
            if self.users[i].jwt == jwt {
                proof {
                    assert(by_jwt(jwt)(self@[i as int]));
                    lemma_find_prefix(self@, by_jwt(jwt), i as int);
                }
                return Some(self.users[i].clone());
            }
            proof {
                assert(!by_jwt(jwt)(self@[i as int]));
            }
            i += 1;
        }
        proof {
            lemma_find_none(self@, by_jwt(jwt));
        }
        None
    }

    /// Point lookup by email: a copy of the first matching row.
    pub fn lookup_by_email(&self, email: &str) -> (r: Option<CompleteUser>)
        ensures
            match r {
                Some(u) => find_by_email(self@, email@) == Some(u@),
                None => find_by_email(self@, email@) is None,
            },
    {
        let n = self.users.len();
        let mut i: usize = 0;
        while i < n
            invariant
                n == self.users@.len(),
                n == self@.len(),
                i <= n,
                forall|j: int| 0 <= j < i ==> !(#[trigger] by_email(email@)(self@[j])),
            decreases n - i,
        {
            if str_eq(self.users[i].email.as_str(), email) {
                proof {
                    assert(by_email(email@)(self@[i as int]));
                    lemma_find_prefix(self@, by_email(email@), i as int);
                }
                return Some(self.users[i].clone());
            }
            proof {
                assert(!by_email(email@)(self@[i as int]));
            }
            i += 1;
        }
        proof {
            lemma_find_none(self@, by_email(email@));
        }
        None
    }

    /// Whether some row already holds this username.
    pub fn contains_username(&self, username: &str) -> (r: bool)
        ensures
            r == exists_username(self@, username@),
    {
        let n = self.users.len();
        let mut i: usize = 0;
        while i < n
            invariant
                n == self.users@.len(),
                n == self@.len(),
                i <= n,
                forall|j: int| 0 <= j < i ==> (#[trigger] self@[j]).username != username@,
            decreases n - i,
        {
            if str_eq(self.users[i].username.as_str(), username) {
                assert(self@[i as int].username == username@);
                return true;
            }
            i += 1;
        }
        false
    }

    /// Whether some row already holds this email.
    pub fn contains_email(&self, email: &str) -> (r: bool)
        ensures
            r == exists_email(self@, email@),
    {
        let n = self.users.len();
        let mut i: usize = 0;
        while i < n
            invariant
                n == self.users@.len(),
                n == self@.len(),
                i <= n,
                forall|j: int| 0 <= j < i ==> (#[trigger] self@[j]).email != email@,
            decreases n - i,
        {
            if str_eq(self.users[i].email.as_str(), email) {
                assert(self@[i as int].email == email@);
                return true;
            }
            i += 1;
        }
        false
    }

    /// Index of the first row matching the immutable composite identity.
    pub fn index_of_identity(&self, username: &str, user_id: u128, created_at: u64) -> (r: Option<
        usize,
    >)
        ensures
            match r {
                Some(i) => i < self@.len() && find_index(
                    self@,
                    by_identity(username@, user_id, created_at),
                ) == i as int,
                None => find_index(self@, by_identity(username@, user_id, created_at)) == -1,
            },
    {
        let n = self.users.len();
        let mut i: usize = 0;
        while i < n
            invariant
                n == self.users@.len(),
                n == self@.len(),
                i <= n,
                forall|j: int|
                    0 <= j < i ==> !(#[trigger] by_identity(username@, user_id, created_at)(
                        self@[j],
                    )),
            decreases n - i,
        {
            let row = &self.users[i];
            if row.user_id == user_id && row.created_at == created_at && str_eq(
                row.username.as_str(),
                username,
            ) {
                proof {
                    assert(by_identity(username@, user_id, created_at)(self@[i as int]));
                    lemma_find_prefix(self@, by_identity(username@, user_id, created_at), i as int);
                }
                return Some(i);
            }
            proof {
                assert(!by_identity(username@, user_id, created_at)(self@[i as int]));
            }
            i += 1;
        }
        proof {
            lemma_find_none(self@, by_identity(username@, user_id, created_at));
        }
        None
    }

    /// A copy of the row at index `i`.
    pub fn row(&self, i: usize) -> (r: CompleteUser)
        requires
            i < self@.len(),
        ensures
            r@ == self@[i as int],
    {
        self.users[i].clone()
    }

    /// Replaces the row at index `i`.
    pub fn set_row(&mut self, i: usize, rec: CompleteUser)
        requires
            i < old(self)@.len(),
        ensures
            final(self)@ == old(self)@.update(i as int, rec@),
    {
        self.users.remove(i);
        self.users.insert(i, rec);
        proof {
            assert(self@ =~= old(self)@.update(i as int, rec@));
        }
    }

    /// Appends a new row.
    pub fn push_row(&mut self, rec: CompleteUser)
        ensures
            final(self)@ == old(self)@.push(rec@),
    {
        self.users.push(rec);
        proof {
            assert(self@ =~= old(self)@.push(rec@));
        }
    }
}

} // verus!
