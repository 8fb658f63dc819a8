//! An optimisation barrier for benchmarks.
use vstd::prelude::*;

verus! {

/// Wraps `std::hint::black_box`, which std documents as an identity function that
/// the compiler is asked to treat as opaque. The contract claims that the value comes
/// back unchanged.
#[verifier::external_body]
fn hint_black_box<T>(val: T) -> (r: T)
    ensures
        r == val,
{
    std::hint::black_box(val)
}

/// Gives `val` back unchanged, while keeping the compiler from seeing through it.
pub fn black_box<T>(val: T) -> (r: T)
    ensures
        r == val,
{
    hint_black_box(val)
}

} // verus!
