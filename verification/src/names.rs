//! Port names and the conversions that collections need.

use vstd::prelude::*;

verus! {

/// `str`'s `==`: whether two names hold the same characters. The contract
/// claims that the result is the equality of the two sequences of characters.
#[verifier::external_body]
pub(crate) fn same_name(a: &str, b: &str) -> (same: bool)
    ensures
        same == (a@ == b@),
{
    a == b
}

/// `Vec::from` for an array: the items of the array, in their order. The
/// contract claims that the vector holds exactly these items.
#[verifier::external_body]
pub(crate) fn vec_from_array<T, const N: usize>(array: [T; N]) -> (items: Vec<T>)
    ensures
        items@ == array@,
{
    Vec::from(array)
}

} // verus!
