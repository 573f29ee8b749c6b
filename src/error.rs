use vstd::prelude::*;

verus! {

/// The ways in which an operation of the market can fail.
#[derive(Clone, Copy, Debug, PartialEq, Eq, Structural)]
pub enum CurveError {
    /// Checked arithmetic of a quote overflowed or underflowed (this includes
    /// selling more units than the supply holds).
    Overflow,
    /// The caller's price bound was not met.
    Slippage,
    /// The curve's divisor is zero.
    InvalidCurve,
    /// A supplied account is not the address derived from its seeds.
    PdaMismatch,
    /// An account does not match the one a record names for its role.
    AuthorityMismatch,
    /// A balance is too small for the amount taken from it.
    InsufficientFunds,
    /// The two fee rates of a pool add up to 100% or more.
    InvalidFee,
}

} // verus!
