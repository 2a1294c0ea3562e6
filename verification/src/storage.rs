//! Trusted views onto the two capacity operations of the standard vector
//! that carry no specification in vstd.

use vstd::prelude::*;

verus! {

/// Relies on `Vec::capacity`: the number of elements the vector can hold
/// without reallocating, which is never below its length.
#[verifier::external_body]
pub(crate) fn vec_capacity<T>(v: &Vec<T>) -> (r: usize)
    ensures
        r >= v@.len(),
{
    v.capacity()
}

/// Relies on `Vec::shrink_to_fit`: it drops the capacity as close to the
/// length as the allocator allows and leaves the stored elements untouched.
#[verifier::external_body]
pub(crate) fn vec_shrink_to_fit<T>(v: &mut Vec<T>)
    ensures
        final(v)@ == old(v)@,
{
    v.shrink_to_fit()
}

} // verus!
