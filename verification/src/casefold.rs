//! Case folding, done by the standard library.
//!
//! Status and type strings are matched case-insensitively, and currency
//! codes are normalized to upper case. Unicode case conversion is far too
//! large to restate here, so the two results are given names
//! ([`lower_of`], [`upper_of`]) and every contract that depends on case
//! folding speaks through those names.

use vstd::prelude::*;

verus! {

/// The characters that `str::to_lowercase` returns for `s`.
pub uninterp spec fn lower_of(s: Seq<char>) -> Seq<char>;

/// The characters that `str::to_uppercase` returns for `s`.
pub uninterp spec fn upper_of(s: Seq<char>) -> Seq<char>;

/// Relies on `str::to_lowercase`: Unicode lowercasing, a function of the
/// characters alone.
#[verifier::external_body]
pub(crate) fn to_lowercase(s: &str) -> (r: String)
    ensures
        r@ == lower_of(s@),
{
    s.to_lowercase()
}

/// Relies on `str::to_uppercase`: Unicode uppercasing, a function of the
/// characters alone.
#[verifier::external_body]
pub(crate) fn to_uppercase(s: &str) -> (r: String)
    ensures
        r@ == upper_of(s@),
{
    s.to_uppercase()
}

} // verus!
