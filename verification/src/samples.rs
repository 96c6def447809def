//! Functions that the attribute lets through: each reference type in their
//! signatures names its lifetime.

use vstd::prelude::*;

verus! {

/// Hands back its first argument.
pub fn identity<'a, 'b>(a: &'a i32, _b: &'b i32) -> (same: &'a i32)
    ensures
        *same == *a,
{
    a
}

/// Hands back its arguments, the second one first.
pub fn swap<'a, 'b>(a: &'a i32, b: &'b i32) -> (swapped: (&'b i32, &'a i32))
    ensures
        *swapped.0 == *b,
        *swapped.1 == *a,
{
    (b, a)
}

/// Holds a reference in its body only. The attribute reads signatures, so a
/// reference type without a lifetime may stand here.
pub fn test() {
    let x: i32 = 2;
    let x_ref: &i32 = &x;
    let _ = x_ref;
}

} // verus!
