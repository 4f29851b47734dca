//! Text normalization helpers.
//!
//! Trimming and case mapping follow Unicode rules, so their results are
//! named rather than restated: `trim_of`, `upper_of` and `lower_of`
//! stand for what `str::trim`, `str::to_uppercase` and
//! `str::to_lowercase` return on a given character sequence.  Everything
//! built on top of them (suffix tests, normalization pipelines) is
//! verified against those names.

use vstd::prelude::*;
use vstd::string::*;

verus! {

pub uninterp spec fn trim_of(s: Seq<char>) -> Seq<char>;

pub uninterp spec fn upper_of(s: Seq<char>) -> Seq<char>;

pub uninterp spec fn lower_of(s: Seq<char>) -> Seq<char>;

/// Relies on str::trim: returns the slice with leading and trailing
/// whitespace removed; the result depends on the characters alone.
#[verifier::external_body]
pub(crate) fn trim_str<'a>(s: &'a str) -> (r: &'a str)
    ensures
        r@ == trim_of(s@),
{
    s.trim()
}

/// Relies on str::to_uppercase: the Unicode uppercase mapping of the
/// input; the result depends on the characters alone.
#[verifier::external_body]
pub(crate) fn upper_str(s: &str) -> (r: String)
    ensures
        r@ == upper_of(s@),
{
    s.to_uppercase()
}

/// Relies on str::to_lowercase: the Unicode lowercase mapping of the
/// input; the result depends on the characters alone.
#[verifier::external_body]
pub(crate) fn lower_str(s: &str) -> (r: String)
    ensures
        r@ == lower_of(s@),
{
    s.to_lowercase()
}

/// Whether `suffix` is a suffix of `s`.
pub open spec fn spec_has_suffix(s: Seq<char>, suffix: Seq<char>) -> bool {
    s.len() >= suffix.len() && s.subrange(s.len() - suffix.len(), s.len() as int) == suffix
}

/// Character-by-character suffix test.
pub fn str_ends_with(s: &str, suffix: &str) -> (r: bool)
    ensures
        r == spec_has_suffix(s@, suffix@),
{
    let n: usize = s.unicode_len();
    let m: usize = suffix.unicode_len();
    if n < m {
        proof {
            assert(!spec_has_suffix(s@, suffix@));
        }
        return false;
    }
    let start: usize = n - m;
    let mut i: usize = 0;
    while i < m
        invariant
            0 <= i <= m,
            m <= n,
            n == s@.len(),
            m == suffix@.len(),
            start == n - m,
            forall|j: int| 0 <= j < i ==> s@.index(start + j) == suffix@.index(j),
        decreases m - i,
    {
        let a = s.get_char(start + i);
        let b = suffix.get_char(i);
        if a != b {
            proof {
                assert(s@.subrange(start as int, n as int).index(i as int) != suffix@.index(
                    i as int,
                ));
            }
            return false;
        }
        i = i + 1;
    }
    proof {
        assert(s@.subrange(start as int, n as int) =~= suffix@);
    }
    true
}

/// Character-by-character equality of two string slices.
pub fn str_eq(a: &str, b: &str) -> (r: bool)
    ensures
        r == (a@ == b@),
{
    let n: usize = a.unicode_len();
    let m: usize = b.unicode_len();
    if n != m {
        return false;
    }
    let mut i: usize = 0;
    while i < n
        invariant
            0 <= i <= n,
            n == a@.len(),
            n == b@.len(),
            forall|j: int| 0 <= j < i ==> a@.index(j) == b@.index(j),
        decreases n - i,
    {
        if a.get_char(i) != b.get_char(i) {
            return false;
        }
        i = i + 1;
    }
    proof {
        assert(a@ =~= b@);
    }
    true
}

/// Trim, then uppercase: the normalization applied to product names,
/// invoice numbers, and payment methods.
pub open spec fn spec_normalized(s: Seq<char>) -> Seq<char> {
    upper_of(trim_of(s))
}

/// Trims the input and maps it to uppercase.
pub fn normalize_text(s: &str) -> (r: String)
    ensures
        r@ == spec_normalized(s@),
{
    let t = trim_str(s);
    upper_str(t)
}

} // verus!
