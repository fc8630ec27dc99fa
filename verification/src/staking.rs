//! Stakes and their rewards: a policy layer beside the lending ledger.
//!
//! A stake earns rewards in proportion to its size, to the time it has run
//! and to the multiplier of the user's tier. Rewards are handed
//! out as the user prefers: partly reinvested, or collected into batches. A
//! stake that is withdrawn before its intended end pays the rewards of the
//! whole commitment as a penalty.
//!
//! The host supplies the time and moves the funds; the functions here decide
//! the amounts and keep the account.

use vstd::prelude::*;
use crate::arith::{try_add, try_mul, try_sub};
use crate::error::LendingError;
use crate::key::AccountKey;
use crate::state::{
    BatchFrequency,
    CompoundStrategy,
    Market,
    RewardMode,
    RewardPreferences,
    UserAccount,
    UserTier,
};

verus! {

/// The reward rate per year and per unit of tier multiplier, in basis points.
pub const BASE_REWARD_RATE_BPS: u64 = 1_700;

/// The seconds of a year times 100% in basis points: what the product of
/// stake, rate, seconds and tier multiplier is divided by. The tier
/// multiplier is not divided out: it counts as a plain factor, so that a
/// stake of 10_000 in the tier with multiplier 125 earns 212_500 in a year.
pub const REWARD_DIVISOR: u64 = 315_360_000_000;

/// The seconds of a day.
pub const SECONDS_PER_DAY: i64 = 86_400;

/// The lock duration, in days, of a stake made without one.
pub const DEFAULT_LOCK_DAYS: u32 = 1;

/// The share of each reward, in percent, that a fresh stake reinvests.
pub const DEFAULT_REINVESTMENT_PERCENTAGE: u8 = 80;

/// The factor that a tier puts on rewards. It enters the reward formula as
/// it stands.
pub open spec fn tier_multiplier(tier: UserTier) -> u16 {
    match tier {
        UserTier::Diamond => 150,
        UserTier::Gold => 125,
        UserTier::Silver => 100,
        UserTier::Bronze => 75,
    }
}

/// The factor that a tier puts on penalties.
pub open spec fn tier_penalty_multiplier(tier: UserTier) -> u16 {
    match tier {
        UserTier::Diamond => 120,
        UserTier::Gold => 110,
        UserTier::Silver => 100,
        UserTier::Bronze => 90,
    }
}

/// The seconds from `from` to `to` as an unsigned count. `None` where the
/// difference leaves the signed 64-bit range. A negative difference counts
/// modulo 2^64, so that it is huge and not small.
pub open spec fn seconds_between(from: i64, to: i64) -> Option<u64> {
    if to - from > i64::MAX || to - from < i64::MIN {
        None
    } else if to - from >= 0 {
        Some((to - from) as u64)
    } else {
        Some((to - from + 0x1_0000_0000_0000_0000) as u64)
    }
}

/// The rewards of `stake_amount` over `seconds` for a user of `tier`: stake
/// times rate times seconds times tier, divided by [`REWARD_DIVISOR`] and
/// rounded down. `None` where one of the products, taken in that order,
/// leaves the 64-bit range.
pub open spec fn rewards_for(stake_amount: u64, seconds: u64, tier: UserTier) -> Option<u64> {
    if stake_amount * BASE_REWARD_RATE_BPS > u64::MAX || stake_amount * BASE_REWARD_RATE_BPS
        * seconds > u64::MAX || stake_amount * BASE_REWARD_RATE_BPS * seconds * tier_multiplier(tier)
        > u64::MAX {
        None
    } else {
        Some(
            ((stake_amount * BASE_REWARD_RATE_BPS * seconds * tier_multiplier(tier)) / (
            REWARD_DIVISOR as int)) as u64,
        )
    }
}

/// The rewards of `stake_amount` from `from` to `to`, or the overflow error
/// where the time span or a product leaves its range.
pub open spec fn rewards_between(stake_amount: u64, from: i64, to: i64, tier: UserTier) -> Result<
    u64,
    LendingError,
> {
    match seconds_between(from, to) {
        None => Err(LendingError::ArithmeticOverflow),
        Some(seconds) => match rewards_for(stake_amount, seconds, tier) {
            None => Err(LendingError::ArithmeticOverflow),
            Some(rewards) => Ok(rewards),
        },
    }
}

/// The factor that `tier` puts on rewards.
pub fn get_tier_multiplier(tier: UserTier) -> (multiplier: u16)
    ensures
        multiplier == tier_multiplier(tier),
{
    match tier {
        UserTier::Diamond => 150,
        UserTier::Gold => 125,
        UserTier::Silver => 100,
        UserTier::Bronze => 75,
    }
}

/// The factor that `tier` puts on penalties.
pub fn get_tier_penalty_multiplier(tier: UserTier) -> (multiplier: u16)
    ensures
        multiplier == tier_penalty_multiplier(tier),
{
    match tier {
        UserTier::Diamond => 120,
        UserTier::Gold => 110,
        UserTier::Silver => 100,
        UserTier::Bronze => 90,
    }
}

/// The rewards of `stake_amount` from `from` to `to` for a user of `tier`.
pub fn rewards_over(stake_amount: u64, from: i64, to: i64, tier: UserTier) -> (rewards: Result<
    u64,
    LendingError,
>)
    ensures
        rewards == rewards_between(stake_amount, from, to, tier),
{
    let span: i64 = match to.checked_sub(from) {
        Some(span) => span,
        None => { return Err(LendingError::ArithmeticOverflow); },
    };
    let seconds: u64 = if span >= 0 {
        span as u64
    } else {
        u64::MAX - ((-(span + 1)) as u64)
    };
    let by_rate = match try_mul(stake_amount, BASE_REWARD_RATE_BPS) {
        Ok(product) => product,
        Err(e) => { return Err(e); },
    };
    let by_time = match try_mul(by_rate, seconds) {
        Ok(product) => product,
        Err(e) => { return Err(e); },
    };
    let by_tier = match try_mul(by_time, get_tier_multiplier(tier) as u64) {
        Ok(product) => product,
        Err(e) => { return Err(e); },
    };
    Ok(by_tier / REWARD_DIVISOR)
}

/// The rewards that the stake has earned from its start until `now`.
pub fn calculate_current_rewards(user_account: &UserAccount, now: i64) -> (rewards: Result<
    u64,
    LendingError,
>)
    ensures
        rewards == rewards_between(
            user_account.stake_amount,
            user_account.stake_start_time,
            now,
            user_account.tier,
        ),
{
    rewards_over(
        user_account.stake_amount,
        user_account.stake_start_time,
        now,
        user_account.tier,
    )
}

/// The rewards that the stake has earned from its start until `now`.
pub fn calculate_realized_rewards(user_account: &UserAccount, now: i64) -> (rewards: Result<
    u64,
    LendingError,
>)
    ensures
        rewards == rewards_between(
            user_account.stake_amount,
            user_account.stake_start_time,
            now,
            user_account.tier,
        ),
{
    rewards_over(
        user_account.stake_amount,
        user_account.stake_start_time,
        now,
        user_account.tier,
    )
}

/// The rewards that the stake earns from its start to its intended end.
pub fn calculate_total_commitment_rewards(user_account: &UserAccount) -> (rewards: Result<
    u64,
    LendingError,
>)
    ensures
        rewards == rewards_between(
            user_account.stake_amount,
            user_account.stake_start_time,
            user_account.intended_end_time,
            user_account.tier,
        ),
{
    rewards_over(
        user_account.stake_amount,
        user_account.stake_start_time,
        user_account.intended_end_time,
        user_account.tier,
    )
}

/// The penalty for leaving at `now`, before the intended end: the rewards of
/// the whole commitment. The overflow error where those, or the rewards
/// earned until `now`, cannot be computed.
pub open spec fn early_exit_penalty(user_account: UserAccount, now: i64) -> Result<
    u64,
    LendingError,
> {
    if rewards_between(
        user_account.stake_amount,
        user_account.stake_start_time,
        now,
        user_account.tier,
    ) is Err {
        Err(LendingError::ArithmeticOverflow)
    } else {
        rewards_between(
            user_account.stake_amount,
            user_account.stake_start_time,
            user_account.intended_end_time,
            user_account.tier,
        )
    }
}

/// The penalty for withdrawing the stake at `now`, before its intended end.
pub fn calculate_early_exit_penalty(user_account: &UserAccount, now: i64) -> (penalty: Result<
    u64,
    LendingError,
>)
    ensures
        penalty == early_exit_penalty(*user_account, now),
{
    if now.checked_sub(user_account.stake_start_time).is_none() {
        return Err(LendingError::ArithmeticOverflow);
    }
    let commitment = match calculate_total_commitment_rewards(user_account) {
        Ok(commitment) => commitment,
        Err(e) => { return Err(e); },
    };
    match calculate_realized_rewards(user_account, now) {
        Ok(_) => Ok(commitment),
        Err(e) => Err(e),
    }
}

/// Records what the user asked for the rewards.
pub fn set_reward_preferences(user_account: &mut UserAccount, preferences: RewardPreferences)
    ensures
        *final(user_account) == (UserAccount {
            reward_preferences: Some(preferences),
            ..*old(user_account)
        }),
{
    user_account.reward_preferences = Some(preferences);
}

/// The account after `amount` was paid out to the user, or the overflow
/// error where the rewards received leave the 64-bit range.
pub open spec fn paid_out(user_account: UserAccount, amount: u64) -> Result<
    UserAccount,
    LendingError,
> {
    if user_account.total_rewards_received + amount > u64::MAX {
        Err(LendingError::ArithmeticOverflow)
    } else {
        Ok(
            UserAccount {
                total_rewards_received: (user_account.total_rewards_received + amount) as u64,
                ..user_account
            },
        )
    }
}

/// Counts `amount` as paid out to the user. The host moves the funds.
pub fn payout_rewards(user_account: &mut UserAccount, amount: u64) -> (done: Result<
    (),
    LendingError,
>)
    ensures
        match paid_out(*old(user_account), amount) {
            Ok(after) => done is Ok && *final(user_account) == after,
            Err(e) => done == Err::<(), LendingError>(e) && *final(user_account) == *old(
                user_account,
            ),
        },
{
    let received = match try_add(user_account.total_rewards_received, amount) {
        Ok(received) => received,
        Err(e) => { return Err(e); },
    };
    user_account.total_rewards_received = received;
    Ok(())
}

/// The part of `rewards` that goes back into the stake: `percentage` percent,
/// rounded down.
pub open spec fn reinvested_part(rewards: u64, percentage: u8) -> int {
    (rewards * percentage) / 100
}

/// What a recurring investment of `rewards` leaves for the user: what is not
/// reinvested.
pub open spec fn recurring_payout(rewards: u64, preferences: RewardPreferences) -> int {
    rewards - reinvested_part(rewards, preferences.reinvestment_percentage)
}

/// The payment that a recurring investment of `rewards` asks of the host:
/// what is left for the user, where anything is.
pub open spec fn recurring_payment(rewards: u64, preferences: RewardPreferences) -> Option<u64> {
    if recurring_payout(rewards, preferences) > 0 {
        Some(recurring_payout(rewards, preferences) as u64)
    } else {
        None
    }
}

/// The account after `rewards` were distributed as a recurring investment at
/// `now`: the reinvested part joins the stake, and under the compound
/// strategy restarts its reward period; the rest counts as paid out. The
/// overflow error where a product or a sum leaves the 64-bit range, or where
/// more than the rewards would be reinvested.
pub open spec fn recurring_investment_step(
    user_account: UserAccount,
    rewards: u64,
    preferences: RewardPreferences,
    now: i64,
) -> Result<UserAccount, LendingError> {
    let reinvested = reinvested_part(rewards, preferences.reinvestment_percentage);
    let payout = recurring_payout(rewards, preferences);
    if rewards * preferences.reinvestment_percentage > u64::MAX || payout < 0 || (reinvested > 0
        && user_account.stake_amount + reinvested > u64::MAX) || (payout > 0
        && user_account.total_rewards_received + payout > u64::MAX) {
        Err(LendingError::ArithmeticOverflow)
    } else {
        Ok(
            UserAccount {
                stake_start_time: if reinvested > 0 && preferences.compound_strategy
                    == CompoundStrategy::Compound {
                    now
                } else {
                    user_account.stake_start_time
                },
                stake_amount: (user_account.stake_amount + reinvested) as u64,
                total_rewards_received: (user_account.total_rewards_received + payout) as u64,
                ..user_account
            },
        )
    }
}

/// Distributes `rewards` as a recurring investment at `now` and returns the
/// payment that the host has to make to the user, if any.
pub fn handle_recurring_investment(
    user_account: &mut UserAccount,
    rewards: u64,
    preferences: &RewardPreferences,
    now: i64,
) -> (payout: Result<Option<u64>, LendingError>)
    ensures
        match recurring_investment_step(*old(user_account), rewards, *preferences, now) {
            Ok(after) => payout == Ok::<Option<u64>, LendingError>(
                recurring_payment(rewards, *preferences),
            ) && *final(user_account) == after,
            Err(e) => payout == Err::<Option<u64>, LendingError>(e) && *final(user_account) == *old(
                user_account,
            ),
        },
{
    let scaled = match try_mul(rewards, preferences.reinvestment_percentage as u64) {
        Ok(scaled) => scaled,
        Err(e) => { return Err(e); },
    };
    let reinvested = scaled / 100;
    let payout = match try_sub(rewards, reinvested) {
        Ok(payout) => payout,
        Err(e) => { return Err(e); },
    };
    let mut stake_amount = user_account.stake_amount;
    let mut stake_start_time = user_account.stake_start_time;
    if reinvested > 0 {
        match preferences.compound_strategy {
            CompoundStrategy::Compound => {
                stake_start_time = now;
            },
            CompoundStrategy::Simple => {},
        }
        stake_amount = match try_add(stake_amount, reinvested) {
            Ok(sum) => sum,
            Err(e) => { return Err(e); },
        };
    }
    let mut received = user_account.total_rewards_received;
    if payout > 0 {
        received = match try_add(received, payout) {
            Ok(sum) => sum,
            Err(e) => { return Err(e); },
        };
    }
    user_account.stake_amount = stake_amount;
    user_account.stake_start_time = stake_start_time;
    user_account.total_rewards_received = received;
    if payout > 0 {
        Ok(Some(payout))
    } else {
        Ok(None)
    }
}

/// The payment that a batch distribution of `rewards` asks of the host: all
/// that has accumulated, once it reaches the batch size; none before.
pub open spec fn batch_payment(
    user_account: UserAccount,
    rewards: u64,
    preferences: RewardPreferences,
) -> Option<u64> {
    if user_account.accumulated_rewards + rewards >= preferences.batch_size {
        Some((user_account.accumulated_rewards + rewards) as u64)
    } else {
        None
    }
}

/// The account after `rewards` were distributed in batch mode at `now`: they
/// accumulate, and once they reach the batch size they are paid out in one
/// and the time of the payout is noted. The overflow error where a sum leaves
/// the 64-bit range.
pub open spec fn real_time_batch_step(
    user_account: UserAccount,
    rewards: u64,
    preferences: RewardPreferences,
    now: i64,
) -> Result<UserAccount, LendingError> {
    let accumulated = user_account.accumulated_rewards + rewards;
    if accumulated > u64::MAX {
        Err(LendingError::ArithmeticOverflow)
    } else if accumulated < preferences.batch_size {
        Ok(UserAccount { accumulated_rewards: accumulated as u64, ..user_account })
    } else if user_account.total_rewards_received + accumulated > u64::MAX {
        Err(LendingError::ArithmeticOverflow)
    } else {
        Ok(
            UserAccount {
                accumulated_rewards: 0,
                last_payout_time: now,
                total_rewards_received: (user_account.total_rewards_received + accumulated) as u64,
                ..user_account
            },
        )
    }
}

/// Distributes `rewards` in batch mode at `now` and returns the payment that
/// the host has to make to the user, if any.
pub fn handle_real_time_batch(
    user_account: &mut UserAccount,
    rewards: u64,
    preferences: &RewardPreferences,
    now: i64,
) -> (payout: Result<Option<u64>, LendingError>)
    ensures
        match real_time_batch_step(*old(user_account), rewards, *preferences, now) {
            Ok(after) => payout == Ok::<Option<u64>, LendingError>(
                batch_payment(*old(user_account), rewards, *preferences),
            ) && *final(user_account) == after,
            Err(e) => payout == Err::<Option<u64>, LendingError>(e) && *final(user_account) == *old(
                user_account,
            ),
        },
{
    let accumulated = match try_add(user_account.accumulated_rewards, rewards) {
        Ok(accumulated) => accumulated,
        Err(e) => { return Err(e); },
    };
    if accumulated < preferences.batch_size {
        user_account.accumulated_rewards = accumulated;
        return Ok(None);
    }
    let received = match try_add(user_account.total_rewards_received, accumulated) {
        Ok(received) => received,
        Err(e) => { return Err(e); },
    };
    user_account.accumulated_rewards = 0;
    user_account.last_payout_time = now;
    user_account.total_rewards_received = received;
    Ok(Some(accumulated))
}

/// The account after the rewards earned until `now` were distributed as the
/// user prefers; without preferences they are paid out at once.
pub open spec fn distribute_rewards_step(user_account: UserAccount, now: i64) -> Result<
    UserAccount,
    LendingError,
> {
    match rewards_between(
        user_account.stake_amount,
        user_account.stake_start_time,
        now,
        user_account.tier,
    ) {
        Err(e) => Err(e),
        Ok(rewards) => match user_account.reward_preferences {
            None => paid_out(user_account, rewards),
            Some(preferences) => match preferences.mode {
                RewardMode::RecurringInvestment => recurring_investment_step(
                    user_account,
                    rewards,
                    preferences,
                    now,
                ),
                RewardMode::RealTimeBatch => real_time_batch_step(
                    user_account,
                    rewards,
                    preferences,
                    now,
                ),
            },
        },
    }
}

/// The payment that the distribution at `now` asks of the host. Without
/// preferences all rewards are paid, even where there are none.
pub open spec fn distributed_payment(user_account: UserAccount, now: i64) -> Option<u64> {
    let rewards = rewards_between(
        user_account.stake_amount,
        user_account.stake_start_time,
        now,
        user_account.tier,
    )->Ok_0;
    match user_account.reward_preferences {
        None => Some(rewards),
        Some(preferences) => match preferences.mode {
            RewardMode::RecurringInvestment => recurring_payment(rewards, preferences),
            RewardMode::RealTimeBatch => batch_payment(user_account, rewards, preferences),
        },
    }
}

/// Distributes the rewards earned until `now` as the user prefers and
/// returns the payment that the host has to make to the user, if any.
pub fn distribute_rewards(user_account: &mut UserAccount, now: i64) -> (payout: Result<
    Option<u64>,
    LendingError,
>)
    ensures
        match distribute_rewards_step(*old(user_account), now) {
            Ok(after) => payout == Ok::<Option<u64>, LendingError>(
                distributed_payment(*old(user_account), now),
            ) && *final(user_account) == after,
            Err(e) => payout == Err::<Option<u64>, LendingError>(e) && *final(user_account) == *old(
                user_account,
            ),
        },
{
    let rewards = match calculate_current_rewards(user_account, now) {
        Ok(rewards) => rewards,
        Err(e) => { return Err(e); },
    };
    match user_account.reward_preferences {
        None => match payout_rewards(user_account, rewards) {
            Ok(()) => Ok(Some(rewards)),
            Err(e) => Err(e),
        },
        Some(preferences) => match preferences.mode {
            RewardMode::RecurringInvestment => handle_recurring_investment(
                user_account,
                rewards,
                &preferences,
                now,
            ),
            RewardMode::RealTimeBatch => handle_real_time_batch(
                user_account,
                rewards,
                &preferences,
                now,
            ),
        },
    }
}

/// The preferences that a fresh stake locked for `lock_duration_days` starts
/// with.
pub open spec fn initial_preferences(lock_duration_days: u32) -> RewardPreferences {
    RewardPreferences {
        mode: RewardMode::RecurringInvestment,
        reinvestment_percentage: DEFAULT_REINVESTMENT_PERCENTAGE,
        compound_strategy: CompoundStrategy::Compound,
        batch_size: 0,
        batch_frequency: BatchFrequency::Instant,
        payout_threshold: 0,
        auto_compound: false,
        lock_duration_days,
    }
}

/// The lock duration of a stake: the one asked for, or one day.
pub open spec fn lock_days(lock_duration_days: Option<u32>) -> u32 {
    match lock_duration_days {
        Some(days) => days,
        None => DEFAULT_LOCK_DAYS,
    }
}

/// The market and the account after `amount` was staked at `now`. The stake
/// replaces whatever stake the account held, is liquid at once, and counts
/// among the market's deposits. The overflow error where the intended end or
/// the market's total leaves its range.
pub open spec fn stake_step(
    market: Market,
    user_account: UserAccount,
    amount: u64,
    lock_duration_days: Option<u32>,
    multiply_position: Option<AccountKey>,
    now: i64,
) -> Result<(Market, UserAccount), LendingError> {
    let days = lock_days(lock_duration_days);
    if now + days * SECONDS_PER_DAY > i64::MAX || market.total_deposits + amount > u64::MAX {
        Err(LendingError::ArithmeticOverflow)
    } else {
        Ok(
            (
                Market { total_deposits: (market.total_deposits + amount) as u64, ..market },
                UserAccount {
                    kamino_multiply_position: match multiply_position {
                        Some(position) => Some(position),
                        None => user_account.kamino_multiply_position,
                    },
                    stake_amount: amount,
                    jupsol_amount: amount,
                    stake_start_time: now,
                    lock_duration_days: days,
                    intended_end_time: (now + days * SECONDS_PER_DAY) as i64,
                    immediate_liquidity_available: true,
                    reward_preferences: Some(initial_preferences(days)),
                    ..user_account
                },
            ),
        )
    }
}

/// Stakes `amount` at `now`, locked for `lock_duration_days` or for one day.
/// With `multiply_position` the stake is tied to that leveraged position.
pub fn stake_with_immediate_liquidity(
    market: &mut Market,
    user_account: &mut UserAccount,
    amount: u64,
    lock_duration_days: Option<u32>,
    multiply_position: Option<AccountKey>,
    now: i64,
) -> (done: Result<(), LendingError>)
    ensures
        match stake_step(
            *old(market),
            *old(user_account),
            amount,
            lock_duration_days,
            multiply_position,
            now,
        ) {
            Ok(after) => done is Ok && *final(market) == after.0 && *final(user_account)
                == after.1,
            Err(e) => done == Err::<(), LendingError>(e) && *final(market) == *old(market)
                && *final(user_account) == *old(user_account),
        },
{
    let days: u32 = match lock_duration_days {
        Some(days) => days,
        None => DEFAULT_LOCK_DAYS,
    };
    let span: i64 = (days as i64) * SECONDS_PER_DAY;
    let end: i64 = match now.checked_add(span) {
        Some(end) => end,
        None => { return Err(LendingError::ArithmeticOverflow); },
    };
    let market_total = match try_add(market.total_deposits, amount) {
        Ok(total) => total,
        Err(e) => { return Err(e); },
    };
    match multiply_position {
        Some(position) => {
            user_account.kamino_multiply_position = Some(position);
        },
        None => {},
    }
    user_account.stake_amount = amount;
    user_account.jupsol_amount = amount;
    user_account.stake_start_time = now;
    user_account.lock_duration_days = days;
    user_account.intended_end_time = end;
    user_account.immediate_liquidity_available = true;
    user_account.reward_preferences = Some(
        RewardPreferences {
            mode: RewardMode::RecurringInvestment,
            reinvestment_percentage: DEFAULT_REINVESTMENT_PERCENTAGE,
            compound_strategy: CompoundStrategy::Compound,
            batch_size: 0,
            batch_frequency: BatchFrequency::Instant,
            payout_threshold: 0,
            auto_compound: false,
            lock_duration_days: days,
        },
    );
    market.total_deposits = market_total;
    Ok(())
}

/// What the withdrawal of a stake moves: `to_user` to the user and, on an
/// early exit, `penalty` to the account that collects penalties.
#[derive(Clone, Copy, Debug, PartialEq, Eq)]
pub struct StakeWithdrawal {
    pub to_user: u64,
    pub penalty: Option<u64>,
}

/// Whether a withdrawal at `now` comes before the intended end of the stake.
pub open spec fn is_early_exit(user_account: UserAccount, now: i64) -> bool {
    now < user_account.intended_end_time
}

/// What the withdrawal of the stake at `now` moves. At or after the intended
/// end the user gets the stake and pays nothing. Before it the user gets the
/// liquid holding less the early-exit penalty; the overflow error where the
/// penalty cannot be computed or exceeds that holding.
pub open spec fn stake_withdrawal(user_account: UserAccount, now: i64) -> Result<
    StakeWithdrawal,
    LendingError,
> {
    if is_early_exit(user_account, now) {
        match early_exit_penalty(user_account, now) {
            Err(e) => Err(e),
            Ok(penalty) => if penalty > user_account.jupsol_amount {
                Err(LendingError::ArithmeticOverflow)
            } else {
                Ok(
                    StakeWithdrawal {
                        to_user: (user_account.jupsol_amount - penalty) as u64,
                        penalty: Some(penalty),
                    },
                )
            },
        }
    } else {
        Ok(StakeWithdrawal { to_user: user_account.stake_amount, penalty: None })
    }
}

/// The account with its stake cleared.
pub open spec fn without_stake(user_account: UserAccount) -> UserAccount {
    UserAccount {
        stake_amount: 0,
        jupsol_amount: 0,
        kamino_multiply_position: None,
        stake_start_time: 0,
        lock_duration_days: 0,
        intended_end_time: 0,
        immediate_liquidity_available: false,
        reward_preferences: None,
        ..user_account
    }
}

/// Withdraws the whole stake at `now`, clears it from the account, and
/// returns what the host has to move. The market's totals are not touched.
pub fn withdraw_with_immediate_liquidity(user_account: &mut UserAccount, now: i64) -> (moved:
    Result<StakeWithdrawal, LendingError>)
    ensures
        moved == stake_withdrawal(*old(user_account), now),
        moved is Ok ==> *final(user_account) == without_stake(*old(user_account)),
        moved is Err ==> *final(user_account) == *old(user_account),
{
    let moved = if now < user_account.intended_end_time {
        let penalty = match calculate_early_exit_penalty(user_account, now) {
            Ok(penalty) => penalty,
            Err(e) => { return Err(e); },
        };
        let to_user = match try_sub(user_account.jupsol_amount, penalty) {
            Ok(rest) => rest,
            Err(e) => { return Err(e); },
        };
        StakeWithdrawal { to_user, penalty: Some(penalty) }
    } else {
        StakeWithdrawal { to_user: user_account.stake_amount, penalty: None }
    };
    user_account.stake_amount = 0;
    user_account.jupsol_amount = 0;
    user_account.kamino_multiply_position = None;
    user_account.stake_start_time = 0;
    user_account.lock_duration_days = 0;
    user_account.intended_end_time = 0;
    user_account.immediate_liquidity_available = false;
    user_account.reward_preferences = None;
    Ok(moved)
}

} // verus!
