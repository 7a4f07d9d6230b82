use vstd::prelude::*;

verus! {

/// Relies on `num_traits::ToPrimitive::to_u64` for `u128`: `Some` of the same
/// value when it fits in a `u64`, `None` otherwise.
#[verifier::external_body]
pub(crate) fn u128_to_u64(x: u128) -> (r: Option<u64>)
    ensures
        x <= u64::MAX ==> r == Some(x as u64),
        x > u64::MAX ==> r is None,
{
    num_traits::ToPrimitive::to_u64(&x)
}

} // verus!
