use vstd::prelude::*;
use crate::errors::WayfindError;
use crate::events::BurnEvent;
use crate::events::CreatorRegistered;
use crate::events::RewardClaimed;
use crate::events::RewardDistributed;
use crate::state::AccountId;
use crate::state::Config;
use crate::state::Creator;
use crate::state::CreatorTier;
use crate::state::UserCredits;
use crate::state::BURN_RATIO;
use crate::state::REMINT_RATIO;
use crate::state::WEEK_SECONDS;
use crate::state::spec_tier_multiplier;
use crate::state::tier_multiplier;

verus! {

/// The share of a spent amount that is destroyed: floor(amount * 75 / 100).
pub open spec fn spec_burn_amount(amount: u64) -> int {
    amount * BURN_RATIO / 100
}

/// The share of a spent amount that is recycled into the remint pool:
/// floor(amount * 25 / 100).
pub open spec fn spec_remint_amount(amount: u64) -> int {
    amount * REMINT_RATIO / 100
}

/// A base reward after tier weighting: floor(amount * multiplier / 100).
pub open spec fn spec_final_reward(amount: u64, tier: CreatorTier) -> int {
    amount * spec_tier_multiplier(tier) / 100
}

/// Both percentage splits floor-round, so the destroyed and the recycled
/// share together never exceed the spent amount: the residual is absorbed by
/// the ledger, neither burned nor pooled.
pub proof fn lemma_burn_split_bounded(amount: u64)
    ensures
        spec_burn_amount(amount) >= 0,
        spec_remint_amount(amount) >= 0,
        spec_burn_amount(amount) + spec_remint_amount(amount) <= amount,
{
    assert(amount * 75 / 100 >= 0 && amount * 25 / 100 >= 0
        && amount * 75 / 100 + amount * 25 / 100 <= amount) by (nonlinear_arith);
}

/// Whether every counter a burn of `amount` touches stays within machine
/// range; a burn succeeds exactly when the amount is positive and this holds.
pub open spec fn burn_fits(config: Config, credits: UserCredits, amount: u64) -> bool {
    &&& config.remint_pool + spec_remint_amount(amount) <= u64::MAX
    &&& config.total_burned + spec_burn_amount(amount) <= u64::MAX
    &&& credits.credits + amount <= u64::MAX
    &&& credits.total_burned + amount <= u64::MAX
}

/// Spends `amount` tokens for usage credits: 75% is destroyed on the ledger,
/// 25% moves to the pool-holding balance, and the user is granted credits 1:1
/// against the original amount. The returned record carries the two ledger
/// amounts for the host to burn and transfer; on any error, nothing changes.
pub fn burn_for_credits(
    config: &mut Config,
    user_credits: &mut UserCredits,
    user: AccountId,
    amount: u64,
    now: i64,
) -> (r: Result<BurnEvent, WayfindError>)
    ensures
        r is Ok <==> amount > 0 && burn_fits(*old(config), *old(user_credits), amount),
        amount == 0 ==> r == Err::<BurnEvent, WayfindError>(WayfindError::InvalidAmount),
        amount > 0 && !burn_fits(*old(config), *old(user_credits), amount)
            ==> r == Err::<BurnEvent, WayfindError>(WayfindError::Overflow),
        r is Err ==> *final(config) == *old(config) && *final(user_credits) == *old(user_credits),
        r matches Ok(ev) ==> {
            &&& ev.user == user
            &&& ev.amount == amount
            &&& ev.burn_amount == spec_burn_amount(amount)
            &&& ev.remint_amount == spec_remint_amount(amount)
            &&& ev.credits == amount
            &&& ev.timestamp == now
            &&& *final(config) == (Config {
                    remint_pool: (old(config).remint_pool + spec_remint_amount(amount)) as u64,
                    total_burned: (old(config).total_burned + spec_burn_amount(amount)) as u64,
                    ..*old(config)
                })
            &&& *final(user_credits) == (UserCredits {
                    user,
                    credits: (old(user_credits).credits + amount) as u64,
                    total_burned: (old(user_credits).total_burned + amount) as u64,
                })
        },
{
    if amount == 0 {
        return Err(WayfindError::InvalidAmount);
    }
    proof {
        lemma_burn_split_bounded(amount);
        assert(amount * BURN_RATIO <= 0xffff_ffff_ffff_ffff * 75
            && amount * REMINT_RATIO <= 0xffff_ffff_ffff_ffff * 25) by (nonlinear_arith)
            requires amount <= u64::MAX;
    }
    let burn_amount: u64 = ((amount as u128) * (BURN_RATIO as u128) / 100) as u64;
    let remint_amount: u64 = ((amount as u128) * (REMINT_RATIO as u128) / 100) as u64;
    if config.remint_pool > u64::MAX - remint_amount
        || config.total_burned > u64::MAX - burn_amount
        || user_credits.credits > u64::MAX - amount
        || user_credits.total_burned > u64::MAX - amount
    {
        return Err(WayfindError::Overflow);
    }
    config.remint_pool = config.remint_pool + remint_amount;
    config.total_burned = config.total_burned + burn_amount;
    user_credits.user = user;
    user_credits.credits = user_credits.credits + amount;
    user_credits.total_burned = user_credits.total_burned + amount;
    Ok(BurnEvent {
        user,
        amount,
        burn_amount,
        remint_amount,
        credits: amount,
        timestamp: now,
    })
}

/// Adds reported views to both view counters of a creator; privileged to the
/// configured authority. Weekly-view reset happens only in distribution.
pub fn record_views(
    config: &Config,
    creator: &mut Creator,
    caller: AccountId,
    views: u64,
) -> (r: Result<(), WayfindError>)
    ensures
        r is Ok <==> caller == config.authority
            && old(creator).total_views + views <= u64::MAX
            && old(creator).weekly_views + views <= u64::MAX,
        caller != config.authority ==> r == Err::<(), WayfindError>(WayfindError::Unauthorized),
        caller == config.authority
            && (old(creator).total_views + views > u64::MAX
                || old(creator).weekly_views + views > u64::MAX)
            ==> r == Err::<(), WayfindError>(WayfindError::Overflow),
        r is Err ==> *final(creator) == *old(creator),
        r is Ok ==> *final(creator) == (Creator {
            total_views: (old(creator).total_views + views) as u64,
            weekly_views: (old(creator).weekly_views + views) as u64,
            ..*old(creator)
        }),
{
    if !is_authority(config, caller) {
        return Err(WayfindError::Unauthorized);
    }
    if creator.total_views > u64::MAX - views || creator.weekly_views > u64::MAX - views {
        return Err(WayfindError::Overflow);
    }
    creator.total_views = creator.total_views + views;
    creator.weekly_views = creator.weekly_views + views;
    Ok(())
}

/// Sets a creator's reputation score and tier to the backend-supplied values;
/// privileged to the configured authority, and the score must stay in 0..=100.
pub fn update_reputation(
    config: &Config,
    creator: &mut Creator,
    caller: AccountId,
    score: u8,
    tier: CreatorTier,
) -> (r: Result<(), WayfindError>)
    ensures
        r is Ok <==> caller == config.authority && score <= 100,
        caller != config.authority ==> r == Err::<(), WayfindError>(WayfindError::Unauthorized),
        caller == config.authority && score > 100
            ==> r == Err::<(), WayfindError>(WayfindError::InvalidScore),
        r is Err ==> *final(creator) == *old(creator),
        r is Ok ==> *final(creator) == (Creator {
            reputation_score: score,
            tier,
            ..*old(creator)
        }),
        r is Ok ==> crate::state::creator_wf(*final(creator)),
{
    if !is_authority(config, caller) {
        return Err(WayfindError::Unauthorized);
    }
    if score > 100 {
        return Err(WayfindError::InvalidScore);
    }
    creator.reputation_score = score;
    creator.tier = tier;
    Ok(())
}

/// The one authorization predicate for the privileged operations: the caller
/// must be the configured authority.
pub fn is_authority(config: &Config, caller: AccountId) -> (r: bool)
    ensures
        r == (caller == config.authority),
{
    caller == config.authority
}

/// Establishes the protocol configuration singleton: the caller becomes the
/// authority, the pool and all counters start at zero, and the first epoch
/// begins now.
pub fn initialize(
    authority: AccountId,
    token_mint: AccountId,
    treasury: AccountId,
    weekly_cap: u64,
    now: i64,
) -> (config: Config)
    ensures
        config == (Config {
            authority,
            token_mint,
            treasury,
            remint_pool: 0,
            weekly_cap,
            current_epoch: 0,
            epoch_start: now,
            total_burned: 0,
            total_reminted: 0,
        }),
{
    Config {
        authority,
        token_mint,
        treasury,
        remint_pool: 0,
        weekly_cap,
        current_epoch: 0,
        epoch_start: now,
        total_burned: 0,
        total_reminted: 0,
    }
}

/// Creates a creator profile for `user` with the caller-supplied payout
/// target: reputation starts at 50, the tier at Silver, every counter at
/// zero. Duplicate-key rejection is the storage layer's: it refuses to create
/// a second record under the same identity.
pub fn register_creator(
    user: AccountId,
    payout_address: AccountId,
    now: i64,
) -> (r: (Creator, CreatorRegistered))
    ensures
        r.0 == (Creator {
            user,
            payout_address,
            total_views: 0,
            weekly_views: 0,
            reputation_score: 50,
            tier: CreatorTier::Silver,
            total_earned: 0,
            pending_rewards: 0,
            registered_at: now,
        }),
        r.1 == (CreatorRegistered { user, payout_address, timestamp: now }),
        crate::state::creator_wf(r.0),
{
    let creator = Creator {
        user,
        payout_address,
        total_views: 0,
        weekly_views: 0,
        reputation_score: 50,
        tier: CreatorTier::Silver,
        total_earned: 0,
        pending_rewards: 0,
        registered_at: now,
    };
    let record = CreatorRegistered { user, payout_address, timestamp: now };
    (creator, record)
}

/// Whether `now` lies at least one week after `epoch_start`, so that a
/// distribution at `now` first rolls the epoch over. Rollover is lazy: it is
/// evaluated only inside distribution, so an epoch with no distributions
/// extends past its nominal week.
pub open spec fn spec_epoch_rolls(epoch_start: i64, now: i64) -> bool {
    now - epoch_start >= WEEK_SECONDS
}

/// The epoch total against which the cap is checked: zero if this
/// distribution rolls the epoch over, else the accumulated total.
pub open spec fn spec_base_reminted(config: Config, now: i64) -> int {
    if spec_epoch_rolls(config.epoch_start, now) {
        0
    } else {
        config.total_reminted as int
    }
}

/// Exactly when a distribution call succeeds. The pool-sufficiency check uses
/// the pre-multiplier base amount while the debit uses the weighted final
/// reward, so for multipliers above 100% the upfront check can pass and the
/// debit still fail; both stages are stated here.
pub open spec fn distribute_ok(
    config: Config,
    creator: Creator,
    caller: AccountId,
    reward_amount: u64,
    now: i64,
) -> bool {
    let fr = spec_final_reward(reward_amount, creator.tier);
    &&& caller == config.authority
    &&& config.remint_pool >= reward_amount
    &&& !(spec_epoch_rolls(config.epoch_start, now) && config.current_epoch == u64::MAX)
    &&& spec_base_reminted(config, now) + fr <= config.weekly_cap
    &&& creator.pending_rewards + fr <= u64::MAX
    &&& config.remint_pool >= fr
}

/// Which rejection a failing distribution call gets, in the order the checks
/// run: authorization, pool sufficiency against the base amount, epoch
/// counter advance, weekly cap, pending-reward headroom, pool debit.
pub open spec fn spec_distribute_error(
    config: Config,
    creator: Creator,
    caller: AccountId,
    reward_amount: u64,
    now: i64,
) -> WayfindError {
    let fr = spec_final_reward(reward_amount, creator.tier);
    if caller != config.authority {
        WayfindError::Unauthorized
    } else if config.remint_pool < reward_amount {
        WayfindError::InsufficientPool
    } else if spec_epoch_rolls(config.epoch_start, now) && config.current_epoch == u64::MAX {
        WayfindError::Overflow
    } else if spec_base_reminted(config, now) + fr > config.weekly_cap {
        WayfindError::WeeklyCapExceeded
    } else if creator.pending_rewards + fr > u64::MAX {
        WayfindError::Overflow
    } else {
        WayfindError::Underflow
    }
}

/// Books a tier-weighted reward for a creator out of the remint pool;
/// privileged to the configured authority. If a week has passed since the
/// epoch start, the epoch first rolls over (counter up, window restarted,
/// epoch total cleared) before the cap is checked; a failure after that point
/// still leaves every record unchanged, rollover included. On success the
/// epoch total never exceeds the weekly cap.
pub fn distribute_reward(
    config: &mut Config,
    creator: &mut Creator,
    caller: AccountId,
    reward_amount: u64,
    now: i64,
) -> (r: Result<RewardDistributed, WayfindError>)
    ensures
        r is Ok <==> distribute_ok(*old(config), *old(creator), caller, reward_amount, now),
        r is Err ==> {
            &&& r == Err::<RewardDistributed, WayfindError>(
                    spec_distribute_error(*old(config), *old(creator), caller, reward_amount, now))
            &&& *final(config) == *old(config)
            &&& *final(creator) == *old(creator)
        },
        r matches Ok(ev) ==> ({
            let fr = spec_final_reward(reward_amount, old(creator).tier);
            let rolls = spec_epoch_rolls(old(config).epoch_start, now);
            &&& ev.creator == old(creator).user
            &&& ev.base_reward == reward_amount
            &&& ev.multiplier == spec_tier_multiplier(old(creator).tier)
            &&& ev.final_reward == fr
            &&& ev.epoch == final(config).current_epoch
            &&& ev.timestamp == now
            &&& *final(config) == (Config {
                    remint_pool: (old(config).remint_pool - fr) as u64,
                    current_epoch: if rolls { (old(config).current_epoch + 1) as u64 } else { old(config).current_epoch },
                    epoch_start: if rolls { now } else { old(config).epoch_start },
                    total_reminted: (spec_base_reminted(*old(config), now) + fr) as u64,
                    ..*old(config)
                })
            &&& *final(creator) == (Creator {
                    pending_rewards: (old(creator).pending_rewards + fr) as u64,
                    weekly_views: 0,
                    ..*old(creator)
                })
        }),
        r is Ok ==> final(config).total_reminted <= final(config).weekly_cap,
{
    if !is_authority(config, caller) {
        return Err(WayfindError::Unauthorized);
    }
    if config.remint_pool < reward_amount {
        return Err(WayfindError::InsufficientPool);
    }

    let multiplier: u64 = tier_multiplier(creator.tier);
    proof {
        assert(reward_amount * multiplier <= 0xffff_ffff_ffff_ffff * 250) by (nonlinear_arith)
            requires reward_amount <= u64::MAX, multiplier <= 250;
    }
    let wide_final: u128 = (reward_amount as u128) * (multiplier as u128) / 100;

    let rolls: bool = (now as i128) - (config.epoch_start as i128) >= (WEEK_SECONDS as i128);
    if rolls && config.current_epoch == u64::MAX {
        return Err(WayfindError::Overflow);
    }
    let base_reminted: u64 = if rolls { 0 } else { config.total_reminted };

    if (base_reminted as u128) + wide_final > (config.weekly_cap as u128) {
        return Err(WayfindError::WeeklyCapExceeded);
    }
    let final_reward: u64 = wide_final as u64;
    if creator.pending_rewards > u64::MAX - final_reward {
        return Err(WayfindError::Overflow);
    }
    if config.remint_pool < final_reward {
        return Err(WayfindError::Underflow);
    }

    if rolls {
        config.current_epoch = config.current_epoch + 1;
        config.epoch_start = now;
    }
    config.total_reminted = base_reminted + final_reward;
    config.remint_pool = config.remint_pool - final_reward;
    creator.pending_rewards = creator.pending_rewards + final_reward;
    creator.weekly_views = 0;

    Ok(RewardDistributed {
        creator: creator.user,
        base_reward: reward_amount,
        multiplier,
        final_reward,
        epoch: config.current_epoch,
        timestamp: now,
    })
}

/// Pays a creator's whole pending balance out: the returned record's `amount`
/// is what the ledger mints to the creator's payout target, authorized by the
/// protocol's own signing capability. Claiming is idempotent in effect: a
/// second claim with nothing pending fails and changes nothing.
pub fn claim_rewards(creator: &mut Creator, now: i64) -> (r: Result<RewardClaimed, WayfindError>)
    ensures
        r is Ok <==> old(creator).pending_rewards > 0
            && old(creator).total_earned + old(creator).pending_rewards <= u64::MAX,
        old(creator).pending_rewards == 0
            ==> r == Err::<RewardClaimed, WayfindError>(WayfindError::NothingToClaim),
        old(creator).pending_rewards > 0
            && old(creator).total_earned + old(creator).pending_rewards > u64::MAX
            ==> r == Err::<RewardClaimed, WayfindError>(WayfindError::Overflow),
        r is Err ==> *final(creator) == *old(creator),
        r matches Ok(ev) ==> {
            &&& ev.creator == old(creator).user
            &&& ev.amount == old(creator).pending_rewards
            &&& ev.timestamp == now
            &&& *final(creator) == (Creator {
                    total_earned: (old(creator).total_earned + old(creator).pending_rewards) as u64,
                    pending_rewards: 0,
                    ..*old(creator)
                })
        },
{
    let amount: u64 = creator.pending_rewards;
    if amount == 0 {
        return Err(WayfindError::NothingToClaim);
    }
    if creator.total_earned > u64::MAX - amount {
        return Err(WayfindError::Overflow);
    }
    creator.total_earned = creator.total_earned + amount;
    creator.pending_rewards = 0;
    Ok(RewardClaimed { creator: creator.user, amount, timestamp: now })
}

} // verus!
