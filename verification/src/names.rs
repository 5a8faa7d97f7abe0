//! Case-insensitive name matching.
//!
//! Guests are looked up by an uppercase fold of their name.  The fold is the
//! one `str::to_uppercase` computes; it is given a name here and left
//! otherwise uninterpreted, so everything proved about matching holds of the
//! real fold, accented letters included.  Two names match when their folds
//! are equal.

use vstd::prelude::*;

verus! {

/// The uppercase fold of a name: what `str::to_uppercase` returns for it.
pub uninterp spec fn upper_of(s: Seq<char>) -> Seq<char>;

/// Relies on str::to_uppercase: the result is the uppercase equivalent of
/// the string, a function of its characters alone, named `upper_of` here.
#[verifier::external_body]
fn to_upper(s: &str) -> (r: String)
    ensures
        r@ == upper_of(s@),
        s@.len() == 0 ==> r@.len() == 0,
{
    s.to_uppercase()
}

/// Two names match when they are equal after the uppercase fold.
pub open spec fn names_match(a: Seq<char>, b: Seq<char>) -> bool {
    upper_of(a) == upper_of(b)
}

/// Whether two names are equal after the uppercase fold.
pub fn str_names_match(a: &str, b: &str) -> (r: bool)
    ensures
        r == names_match(a@, b@),
{
    let ua = to_upper(a);
    let ub = to_upper(b);
    ua == ub
}

} // verus!
