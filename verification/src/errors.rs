use vstd::prelude::*;

verus! {

/// Why an operation was rejected. A failed operation leaves every record it
/// was handed unchanged; the caller must correct the condition and resubmit.
#[derive(Clone, Copy, Debug, PartialEq, Eq, Structural)]
pub enum WayfindError {
    /// The spent amount was zero.
    InvalidAmount,
    /// A privileged operation was called by a non-authority identity.
    Unauthorized,
    /// A reputation score above 100 was supplied.
    InvalidScore,
    /// The remint pool does not cover the base reward amount.
    InsufficientPool,
    /// The reward would push this epoch's distributed total over the cap.
    WeeklyCapExceeded,
    /// A claim was made with no pending rewards.
    NothingToClaim,
    /// A counter update would exceed its machine range.
    Overflow,
    /// A balance debit would drop below zero.
    Underflow,
}

} // verus!
