use vstd::prelude::*;

verus! {

/// Why the pool refused a request.
#[derive(Clone, Copy, Debug, PartialEq, Eq, Structural)]
pub enum AmmError {
    /// The fee exceeds 10 000 basis points.
    FeePercentErr,
    /// The fee could not be turned into the share of the input that stays.
    InvalidFee,
    /// The pool is locked.
    PoolLocked,
    /// An amount is zero, or leaves nothing after the fee.
    InvalidAmount,
    /// The price moved past what the user accepted.
    SlippageExceeded,
    /// An intermediate value did not fit.
    Overflow,
    /// A subtraction went below zero.
    Underflow,
    /// More LP tokens were asked for than exist.
    InsufficientBalance,
    /// The curve was given a precision it does not accept.
    InvalidPrecision,
    /// The curve was given an empty balance.
    ZeroBalance,
    /// The pool has no authority that could collect its fees.
    NoAuthoritySet,
    /// The signer is not the pool's authority.
    InvalidAuthority,
}

/// Why the pricing curve refused a computation.
#[derive(Clone, Copy, Debug, PartialEq, Eq, Structural)]
pub enum CurveError {
    InvalidPrecision,
    Overflow,
    Underflow,
    InvalidFeeAmount,
    InsufficientBalance,
    ZeroBalance,
    SlippageLimitExceeded,
}

/// The pool error that reports a curve error.
pub open spec fn curve_error_as_amm(e: CurveError) -> AmmError {
    match e {
        CurveError::InvalidPrecision => AmmError::InvalidPrecision,
        CurveError::Overflow => AmmError::Overflow,
        CurveError::Underflow => AmmError::Underflow,
        CurveError::InvalidFeeAmount => AmmError::InvalidFee,
        CurveError::InsufficientBalance => AmmError::InsufficientBalance,
        CurveError::ZeroBalance => AmmError::ZeroBalance,
        CurveError::SlippageLimitExceeded => AmmError::SlippageExceeded,
    }
}

impl From<CurveError> for AmmError {
    fn from(e: CurveError) -> (r: AmmError) {
        match e {
            CurveError::InvalidPrecision => AmmError::InvalidPrecision,
            CurveError::Overflow => AmmError::Overflow,
            CurveError::Underflow => AmmError::Underflow,
            CurveError::InvalidFeeAmount => AmmError::InvalidFee,
            CurveError::InsufficientBalance => AmmError::InsufficientBalance,
            CurveError::ZeroBalance => AmmError::ZeroBalance,
            CurveError::SlippageLimitExceeded => AmmError::SlippageExceeded,
        }
    }
}

impl vstd::std_specs::convert::FromSpecImpl<CurveError> for AmmError {
    open spec fn obeys_from_spec() -> bool {
        true
    }

    open spec fn from_spec(e: CurveError) -> AmmError {
        curve_error_as_amm(e)
    }
}

} // verus!
