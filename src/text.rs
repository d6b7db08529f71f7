//! Small string helpers used by the frontier and the spiders.

use vstd::prelude::*;

verus! {

/// Relies on `==` on `str`: two string slices are equal exactly when they
/// hold the same characters.
#[verifier::external_body]
pub(crate) fn same_chars(a: &str, b: &str) -> (r: bool)
    ensures
        r == (a@ == b@),
{
    a == b
}

} // verus!
