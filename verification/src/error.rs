use vstd::prelude::*;

verus! {

/// Why an instruction of the pool is refused.
#[derive(Debug, Clone, Copy, PartialEq, Eq, Structural)]
pub enum AmmError {
    /// An amount that must be positive is zero.
    InvalidAmount,
    /// The pool is locked by its authority.
    AMMLocked,
    /// The signer is not the authority recorded in the pool's configuration.
    InvalidConfig,
    /// The pool would pay out less of token X than the caller's minimum.
    InsufficientTokenX,
    /// The pool would pay out less of token Y than the caller's minimum.
    InsufficientTokenY,
    /// The constant-product curve refused the computation.
    CurveError,
}

} // verus!
