//! The ways a factory operation can be refused.
use vstd::prelude::*;

verus! {

/// Why an operation was refused; a refused operation changes no state.
#[derive(Clone, Copy, Debug, PartialEq, Eq, Structural)]
pub enum FactoryError {
    /// The caller already has an active creator profile.
    AlreadyRegistered,
    /// The caller has no active creator profile.
    NotRegistered,
    /// A tip carried no value.
    ZeroAmount,
    /// The tipped identity is not an active creator.
    CreatorInactive,
    /// The caller's withdrawable balance is zero.
    NothingToWithdraw,
    /// Only the factory owner may do this.
    Unauthorized,
    /// The requested fee rate is above the cap.
    FeeTooHigh,
    /// A result would not fit in 256 bits.
    Overflow,
}

} // verus!
