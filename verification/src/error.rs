//! The ways in which an operation on a pool can fail.

use vstd::prelude::*;

verus! {

/// Why an operation was refused. Every failure is final for the operation
/// that met it: nothing of the pool has changed when one is returned.
#[derive(Clone, Copy, Debug, PartialEq, Eq, Structural)]
pub enum ErrorCode {
    /// An amount that must be positive was zero.
    InvalidAmount,
    /// The lower tick of a range is not below its upper tick.
    InvalidTickRange,
    /// The trade would pay out less than the caller's minimum, or nothing.
    InsufficientOutputAmount,
    /// The trade would leave the price beyond the caller's limit.
    PriceLimitExceeded,
    /// A fixed-point result does not fit in 128 bits.
    Overflow,
    /// A pool or a fee was described by values that no pool can have.
    InvalidParameters,
}

impl ErrorCode {
    /// The text that describes each failure.
    pub open spec fn spec_message(self) -> Seq<char> {
        match self {
            ErrorCode::InvalidAmount => "Invalid amount provided"@,
            ErrorCode::InvalidTickRange => "Invalid tick range"@,
            ErrorCode::InsufficientOutputAmount => "Insufficient output amount"@,
            ErrorCode::PriceLimitExceeded => "Price limit exceeded"@,
            ErrorCode::Overflow => "Fixed-point overflow"@,
            ErrorCode::InvalidParameters => "Invalid pool parameters"@,
        }
    }

    /// A short description of the failure, for whoever reads the error.
    pub fn message(&self) -> (text: &'static str)
        ensures
            text@ == self.spec_message(),
    {
        match self {
            ErrorCode::InvalidAmount => "Invalid amount provided",
            ErrorCode::InvalidTickRange => "Invalid tick range",
            ErrorCode::InsufficientOutputAmount => "Insufficient output amount",
            ErrorCode::PriceLimitExceeded => "Price limit exceeded",
            ErrorCode::Overflow => "Fixed-point overflow",
            ErrorCode::InvalidParameters => "Invalid pool parameters",
        }
    }
}

} // verus!
