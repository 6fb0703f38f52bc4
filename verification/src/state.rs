use vstd::prelude::*;

verus! {

/// Percentage of a spent amount that is destroyed outright.
pub const BURN_RATIO: u64 = 75;

/// Percentage of a spent amount that is recycled into the remint pool.
pub const REMINT_RATIO: u64 = 25;

/// Default weekly emission cap: 500k tokens at 6 decimals.
pub const WEEKLY_REMINT_CAP: u64 = 500_000_000_000;

/// Length of one distribution epoch in seconds (7 * 24 * 60 * 60).
pub const WEEK_SECONDS: i64 = 604800;

/// A participant identity or balance identifier: four machine words standing
/// for the 32-byte key under which the host chain addresses balances and
/// records. The controller only ever compares identities for equality.
#[derive(Clone, Copy, Debug, PartialEq, Eq, Structural)]
pub struct AccountId {
    pub w0: u64,
    pub w1: u64,
    pub w2: u64,
    pub w3: u64,
}

/// Reputation tier of a creator; each tier carries an integer-percent reward
/// multiplier, see [`spec_tier_multiplier`].
#[derive(Clone, Copy, Debug, PartialEq, Eq, Structural)]
pub enum CreatorTier {
    Bronze,
    Silver,
    Gold,
    Platinum,
    Diamond,
}

/// The tier multiplier schedule, in integer percent: the single place the
/// reward weighting is configured.
pub open spec fn spec_tier_multiplier(tier: CreatorTier) -> int {
    match tier {
        CreatorTier::Bronze => 50,
        CreatorTier::Silver => 100,
        CreatorTier::Gold => 150,
        CreatorTier::Platinum => 200,
        CreatorTier::Diamond => 250,
    }
}

/// Looks a tier's reward multiplier up in the schedule.
pub fn tier_multiplier(tier: CreatorTier) -> (m: u64)
    ensures
        m == spec_tier_multiplier(tier),
{
    match tier {
        CreatorTier::Bronze => 50,
        CreatorTier::Silver => 100,
        CreatorTier::Gold => 150,
        CreatorTier::Platinum => 200,
        CreatorTier::Diamond => 250,
    }
}

/// Protocol configuration: the one globally shared record, created once at
/// initialization and mutated only by burn and distribution operations.
#[derive(Clone, Copy, Debug, PartialEq, Eq, Structural)]
pub struct Config {
    /// Identity allowed to run the privileged operations.
    pub authority: AccountId,
    /// The fungible-token mint this protocol burns and remints.
    pub token_mint: AccountId,
    /// The pool-holding balance that receives the recycled share of burns.
    pub treasury: AccountId,
    /// Tokens recycled from burns and awaiting distribution.
    pub remint_pool: u64,
    /// Maximum tokens distributable within one epoch.
    pub weekly_cap: u64,
    /// Epoch counter, advanced lazily by distribution.
    pub current_epoch: u64,
    /// Timestamp at which the current epoch began.
    pub epoch_start: i64,
    /// Lifetime total of destroyed tokens.
    pub total_burned: u64,
    /// Tokens distributed within the current epoch; reset on rollover.
    pub total_reminted: u64,
}

/// Per-user record of purchased, non-transferable usage credits; created
/// lazily on a user's first burn.
#[derive(Clone, Copy, Debug, PartialEq, Eq, Structural)]
pub struct UserCredits {
    pub user: AccountId,
    /// Cumulative credits granted 1:1 per token spent.
    pub credits: u64,
    /// Cumulative pre-split amounts this user has spent.
    pub total_burned: u64,
}

/// Per-creator record, created exactly once via registration.
#[derive(Clone, Copy, Debug, PartialEq, Eq, Structural)]
pub struct Creator {
    pub user: AccountId,
    /// Balance identifier that receives minted rewards on claim.
    pub payout_address: AccountId,
    pub total_views: u64,
    /// Views within the current accounting window; reset by distribution.
    pub weekly_views: u64,
    /// Reputation in 0..=100, supplied by the trusted backend.
    pub reputation_score: u8,
    pub tier: CreatorTier,
    /// Lifetime total of claimed rewards.
    pub total_earned: u64,
    /// Distributed but not yet claimed rewards.
    pub pending_rewards: u64,
    pub registered_at: i64,
}

/// Well-formedness of a creator record: the reputation score stays in range.
/// Registration establishes it and every operation preserves it.
pub open spec fn creator_wf(c: Creator) -> bool {
    c.reputation_score <= 100
}

} // verus!
