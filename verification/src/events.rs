use vstd::prelude::*;
use crate::state::AccountId;

verus! {

/// Append-only record of a successful burn-for-credits operation.
#[derive(Clone, Copy, Debug, PartialEq, Eq, Structural)]
pub struct BurnEvent {
    pub user: AccountId,
    /// The pre-split amount the user spent.
    pub amount: u64,
    /// The share destroyed on the ledger.
    pub burn_amount: u64,
    /// The share moved to the pool-holding balance.
    pub remint_amount: u64,
    /// Credits granted, 1:1 against the original amount.
    pub credits: u64,
    pub timestamp: i64,
}

/// Append-only record of a creator registration.
#[derive(Clone, Copy, Debug, PartialEq, Eq, Structural)]
pub struct CreatorRegistered {
    pub user: AccountId,
    pub payout_address: AccountId,
    pub timestamp: i64,
}

/// Append-only record of a successful reward distribution.
#[derive(Clone, Copy, Debug, PartialEq, Eq, Structural)]
pub struct RewardDistributed {
    pub creator: AccountId,
    /// The base amount before tier weighting.
    pub base_reward: u64,
    /// The tier multiplier applied, in integer percent.
    pub multiplier: u64,
    /// The amount actually credited and debited.
    pub final_reward: u64,
    /// The epoch the reward was booked into.
    pub epoch: u64,
    pub timestamp: i64,
}

/// Append-only record of a successful claim; `amount` is what the ledger
/// mints to the creator's payout target.
#[derive(Clone, Copy, Debug, PartialEq, Eq, Structural)]
pub struct RewardClaimed {
    pub creator: AccountId,
    pub amount: u64,
    pub timestamp: i64,
}

} // verus!
