//! Q64.64 fixed-point arithmetic: a real number `x` is held as the integer
//! `x * 2^64` in a `u128`.
use vstd::prelude::*;

use crate::error::BasketError;

verus! {

/// One in Q64.64 fixed point, `2^64`.
pub const Q64_ONE: u128 = 0x1_0000_0000_0000_0000;

/// Exact Q64.64 product, truncated toward zero: `floor(a * b / 2^64)`.
pub open spec fn q_mul(a: int, b: int) -> int {
    (a * b) / (Q64_ONE as int)
}

/// Exact Q64.64 quotient, truncated toward zero: `floor(a * 2^64 / b)`.
pub open spec fn q_div(a: int, b: int) -> int {
    (a * (Q64_ONE as int)) / b
}

/// `x` clamped to the largest `u128`.
pub open spec fn saturate(x: int) -> int {
    if x > u128::MAX {
        u128::MAX as int
    } else {
        x
    }
}

/// `a - b`, or zero where that is negative.
pub open spec fn monus(a: int, b: int) -> int {
    if a < b {
        0
    } else {
        a - b
    }
}

/// Fixed-point multiply. The full product `a * b` must fit in 128 bits; where
/// it does not, the call fails rather than wrap.
pub fn qmul(a: u128, b: u128) -> (r: Result<u128, BasketError>)
    ensures
        a * b <= u128::MAX ==> r == Ok::<u128, BasketError>(q_mul(a as int, b as int) as u128),
        a * b > u128::MAX ==> r == Err::<u128, BasketError>(BasketError::ArithmeticOverflow),
{
    match a.checked_mul(b) {
        Some(p) => Ok(p / Q64_ONE),
        None => Err(BasketError::ArithmeticOverflow),
    }
}

/// Fixed-point divide. The scaled dividend `a * 2^64` must fit in 128 bits,
/// that is `a < 2^64`; where it does not, the call fails rather than wrap.
pub fn qdiv(a: u128, b: u128) -> (r: Result<u128, BasketError>)
    ensures
        b == 0 ==> r == Err::<u128, BasketError>(BasketError::DivisionByZero),
        b != 0 && a >= Q64_ONE ==> r == Err::<u128, BasketError>(BasketError::ArithmeticOverflow),
        b != 0 && a < Q64_ONE ==> r == Ok::<u128, BasketError>(q_div(a as int, b as int) as u128),
        b != 0 && a < Q64_ONE ==> q_div(a as int, b as int) <= u128::MAX,
{
    if b == 0 {
        return Err(BasketError::DivisionByZero);
    }
    if a >= Q64_ONE {
        return Err(BasketError::ArithmeticOverflow);
    }
    proof {
        assert(a * Q64_ONE <= u128::MAX) by (nonlinear_arith)
            requires
                a < Q64_ONE,
                Q64_ONE == 0x1_0000_0000_0000_0000u128,
        ;
        let n: int = a * Q64_ONE;
        assert(n / (b as int) <= n) by (nonlinear_arith)
            requires
                b >= 1,
                n >= 0,
        ;
    }
    Ok((a * Q64_ONE) / b)
}

/// `a * b`, saturating at the largest `u128`.
pub fn saturating_mul_u128(a: u128, b: u128) -> (r: u128)
    ensures
        r == saturate(a * b),
{
    match a.checked_mul(b) {
        Some(p) => p,
        None => u128::MAX,
    }
}

} // verus!
