//! Verified text helpers: string equality, character search, and parsing of
//! the small decimal status codes.

use vstd::prelude::*;
use vstd::string::*;

verus! {

/// Character-for-character string equality.
pub fn str_eq(a: &str, b: &str) -> (r: bool)
    ensures
        r == (a@ == b@),
{
    let alen = a.unicode_len();
    let blen = b.unicode_len();
    if alen != blen {
        return false;
    }
    let mut i: usize = 0;
    while i < alen
        invariant
            alen == a@.len(),
            blen == b@.len(),
            alen == blen,
            i <= alen,
            forall|j: int| 0 <= j < i ==> a@[j] == b@[j],
        decreases alen - i,
    {
        if a.get_char(i) != b.get_char(i) {
            return false;
        }
        i += 1;
    }
    proof {
        assert(a@ =~= b@);
    }
    true
}

/// Whether the string contains the character `c`.
pub fn contains_char(s: &str, c: char) -> (r: bool)
    ensures
        r == s@.contains(c),
{
    let len = s.unicode_len();
    let mut i: usize = 0;
    while i < len
        invariant
            len == s@.len(),
            i <= len,
            forall|j: int| 0 <= j < i ==> s@[j] != c,
        decreases len - i,
    {
        if s.get_char(i) == c {
            return true;
        }
        i += 1;
    }
    false
}

/// A decimal digit.
pub open spec fn is_digit(c: char) -> bool {
    '0' <= c && c <= '9'
}

pub open spec fn digit_val(c: char) -> int {
    c as int - '0' as int
}

pub open spec fn all_digits(v: Seq<char>) -> bool {
    forall|i: int| 0 <= i < v.len() ==> is_digit(v[i])
}

/// The number denoted by a non-empty string of decimal digits.
pub open spec fn digits_val(v: Seq<char>) -> int
    decreases v.len(),
{
    if v.len() == 0 {
        0
    } else {
        digits_val(v.drop_last()) * 10 + digit_val(v.last())
    }
}

/// Whether the string denotes one of the status codes 0 to 3.
pub open spec fn status_ok(v: Seq<char>) -> bool {
    v.len() > 0 && all_digits(v) && digits_val(v) <= 3
}

pub open spec fn status_val(v: Seq<char>) -> i8 {
    digits_val(v) as i8
}

proof fn lemma_digits_val_nonneg(v: Seq<char>)
    requires
        all_digits(v),
    ensures
        digits_val(v) >= 0,
    decreases v.len(),
{
    if v.len() > 0 {
        assert(all_digits(v.drop_last()));
        lemma_digits_val_nonneg(v.drop_last());
    }
}

/// Parses a status code: a non-empty digit string denoting a value up to 3.
pub fn parse_status(s: &str) -> (r: Option<i8>)
    ensures
        match r {
            Some(n) => status_ok(s@) && n == status_val(s@) && 0 <= n <= 3,
            None => !status_ok(s@),
        },
{
    let len = s.unicode_len();
    if len == 0 {
        return None;
    }
    // `acc` holds the value of the digits read so far, capped at 4 once it
    // can no longer be a valid status code.
    let mut acc: u32 = 0;
    let mut i: usize = 0;
    while i < len
        invariant
            len == s@.len(),
            0 < len,
            i <= len,
            all_digits(s@.take(i as int)),
            acc <= 3 ==> acc == digits_val(s@.take(i as int)),
            acc > 3 ==> acc == 4 && digits_val(s@.take(i as int)) > 3,
        decreases len - i,
    {
        let c = s.get_char(i);
        if c < '0' || c > '9' {
            assert(!is_digit(s@[i as int]));
            return None;
        }
        let d = (c as u32) - 48;
        proof {
            assert(s@.take(i + 1).drop_last() =~= s@.take(i as int));
            assert(s@.take(i + 1).last() == s@[i as int]);
            lemma_digits_val_nonneg(s@.take(i as int));
        }
        if acc == 0 {
            acc = if d > 3 {
                4
            } else {
                d
            };
        } else {
            acc = 4;
        }
        assert(all_digits(s@.take(i + 1)));
        i += 1;
    }
    proof {
        assert(s@.take(len as int) =~= s@);
    }
    if acc <= 3 {
        Some(acc as i8)
    } else {
        None
    }
}

} // verus!




