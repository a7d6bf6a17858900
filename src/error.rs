use vstd::prelude::*;

verus! {

/// Errors of the basket program.
#[derive(Debug, Clone, Copy, PartialEq, Eq, Structural)]
pub enum BasketError {
    /// Issuance or redemption (or an admin NAV update) while the basket is paused.
    Paused,
    /// The computed amount is below the caller's stated minimum.
    SlippageExceeded,
    /// The NAV per share has not been set (it is still zero).
    StaleOracle,
    /// A dividend deposit while no shares are in circulation.
    NoSupply,
    /// The caller is not the basket's admin.
    Unauthorized,
    /// A fixed-point intermediate or a result does not fit its integer width.
    ArithmeticOverflow,
    /// A fixed-point division by zero.
    DivisionByZero,
}

/// Errors of the NAV oracle path.
#[derive(Debug, Clone, Copy, PartialEq, Eq, Structural)]
pub enum OracleError {
    /// The caller is not the basket's admin.
    Unauthorized,
}

} // verus!
