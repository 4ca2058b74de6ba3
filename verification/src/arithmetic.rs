//! The arithmetic that the synapse asks of its caller.
use crate::binary64::Binary64;
use vstd::prelude::*;

verus! {

/// The four operations of binary64 arithmetic, each rounding as the machine does.
///
/// This crate reads and compares encodings itself, but it does not compute with them: a
/// caller hands in the unit that multiplies, adds, subtracts and divides. The methods carry
/// no contract, so nothing is assumed of an implementation. What this crate proves of a
/// function that takes an `Arithmetic` says which operations the function asked for, on
/// which operands, and what it made of the answers, whatever they were.
pub trait Arithmetic {
    /// `a * b`.
    fn product(&self, a: Binary64, b: Binary64) -> Binary64;

    /// `a + b`.
    fn sum(&self, a: Binary64, b: Binary64) -> Binary64;

    /// `a - b`.
    fn difference(&self, a: Binary64, b: Binary64) -> Binary64;

    /// `a / b`.
    fn quotient(&self, a: Binary64, b: Binary64) -> Binary64;
}

/// Whether `result` is an answer of `arithmetic` to `a * b`.
pub open spec fn is_product<A: Arithmetic>(
    arithmetic: &A,
    a: Binary64,
    b: Binary64,
    result: Binary64,
) -> bool {
    call_ensures(A::product, (arithmetic, a, b), result)
}

/// Whether `result` is an answer of `arithmetic` to `a + b`.
pub open spec fn is_sum<A: Arithmetic>(
    arithmetic: &A,
    a: Binary64,
    b: Binary64,
    result: Binary64,
) -> bool {
    call_ensures(A::sum, (arithmetic, a, b), result)
}

/// Whether `result` is an answer of `arithmetic` to `a - b`.
pub open spec fn is_difference<A: Arithmetic>(
    arithmetic: &A,
    a: Binary64,
    b: Binary64,
    result: Binary64,
) -> bool {
    call_ensures(A::difference, (arithmetic, a, b), result)
}

/// Whether `result` is an answer of `arithmetic` to `a / b`.
pub open spec fn is_quotient<A: Arithmetic>(
    arithmetic: &A,
    a: Binary64,
    b: Binary64,
    result: Binary64,
) -> bool {
    call_ensures(A::quotient, (arithmetic, a, b), result)
}

} // verus!
