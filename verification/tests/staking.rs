use kamino_lending::engine::initialize_market;
use kamino_lending::error::LendingError;
use kamino_lending::key::AccountKey;
use kamino_lending::staking::{
    calculate_current_rewards, calculate_early_exit_penalty, calculate_realized_rewards,
    calculate_total_commitment_rewards, distribute_rewards, get_tier_multiplier,
    get_tier_penalty_multiplier, handle_real_time_batch, handle_recurring_investment,
    payout_rewards, rewards_over, set_reward_preferences, stake_with_immediate_liquidity,
    withdraw_with_immediate_liquidity, StakeWithdrawal,
};
use kamino_lending::state::{
    BatchFrequency, CompoundStrategy, RewardMode, RewardPreferences, UserAccount, UserTier,
};

const DAY: i64 = 86_400;
const YEAR: i64 = 31_536_000;

fn key(tag: u8) -> AccountKey {
    AccountKey::new([tag; 32])
}

fn user(tier: UserTier) -> UserAccount {
    UserAccount::new(key(50), tier)
}

fn preferences(mode: RewardMode, percentage: u8, strategy: CompoundStrategy, batch: u64) -> RewardPreferences {
    RewardPreferences {
        mode,
        reinvestment_percentage: percentage,
        compound_strategy: strategy,
        batch_size: batch,
        batch_frequency: BatchFrequency::Hourly,
        payout_threshold: 0,
        auto_compound: true,
        lock_duration_days: 3,
    }
}

#[test]
fn tiers_scale_rewards_and_penalties() {
    assert_eq!(get_tier_multiplier(UserTier::Diamond), 150);
    assert_eq!(get_tier_multiplier(UserTier::Gold), 125);
    assert_eq!(get_tier_multiplier(UserTier::Silver), 100);
    assert_eq!(get_tier_multiplier(UserTier::Bronze), 75);
    assert_eq!(get_tier_penalty_multiplier(UserTier::Diamond), 120);
    assert_eq!(get_tier_penalty_multiplier(UserTier::Gold), 110);
    assert_eq!(get_tier_penalty_multiplier(UserTier::Silver), 100);
    assert_eq!(get_tier_penalty_multiplier(UserTier::Bronze), 90);
}

#[test]
fn rewards_follow_the_formula() {
    assert_eq!(rewards_over(1_000_000, 0, YEAR, UserTier::Silver), Ok(17_000_000));
    assert_eq!(rewards_over(1_000_000, 5, YEAR + 5, UserTier::Diamond), Ok(25_500_000));
    assert_eq!(rewards_over(1_000_000, -DAY, 0, UserTier::Gold), Ok(58_219));
    assert_eq!(rewards_over(1_000_000, 7, 7, UserTier::Bronze), Ok(0));
    assert_eq!(rewards_over(0, 0, YEAR, UserTier::Bronze), Ok(0));
}

#[test]
fn rewards_out_of_range_are_overflows() {
    assert_eq!(
        rewards_over(1_000_000_000, 0, YEAR, UserTier::Silver),
        Err(LendingError::ArithmeticOverflow)
    );
    assert_eq!(
        rewards_over(10_851_025_925_711_501, 0, 0, UserTier::Silver),
        Err(LendingError::ArithmeticOverflow)
    );
    assert_eq!(rewards_over(10_851_025_925_711_500, 0, 0, UserTier::Silver), Ok(0));
    assert_eq!(
        rewards_over(1, i64::MIN, 1, UserTier::Silver),
        Err(LendingError::ArithmeticOverflow)
    );
}

#[test]
fn time_running_backwards_counts_as_a_huge_span() {
    assert_eq!(rewards_over(1, 10, 9, UserTier::Silver), Err(LendingError::ArithmeticOverflow));
    assert_eq!(rewards_over(0, 10, 9, UserTier::Silver), Ok(0));
}

#[test]
fn rewards_of_an_account() {
    let mut u = user(UserTier::Gold);
    u.stake_amount = 1_000_000;
    u.stake_start_time = 1_000;
    u.intended_end_time = 1_000 + YEAR;
    assert_eq!(calculate_current_rewards(&u, 1_000 + DAY), Ok(58_219));
    assert_eq!(calculate_realized_rewards(&u, 1_000 + DAY), Ok(58_219));
    assert_eq!(calculate_total_commitment_rewards(&u), Ok(21_250_000));
    assert_eq!(calculate_early_exit_penalty(&u, 1_000 + DAY), Ok(21_250_000));
    assert_eq!(calculate_early_exit_penalty(&u, 999), Err(LendingError::ArithmeticOverflow));
}

#[test]
fn preferences_are_recorded() {
    let mut u = user(UserTier::Gold);
    let p = preferences(RewardMode::RealTimeBatch, 10, CompoundStrategy::Simple, 5);
    set_reward_preferences(&mut u, p);
    let mut expected = user(UserTier::Gold);
    expected.reward_preferences = Some(p);
    assert_eq!(u, expected);
}

#[test]
fn a_payout_is_counted() {
    let mut u = user(UserTier::Gold);
    assert_eq!(payout_rewards(&mut u, 5), Ok(()));
    assert_eq!(payout_rewards(&mut u, 6), Ok(()));
    assert_eq!(u.total_rewards_received, 11);
    u.total_rewards_received = u64::MAX;
    let before = u.clone();
    assert_eq!(payout_rewards(&mut u, 1), Err(LendingError::ArithmeticOverflow));
    assert_eq!(u, before);
}

#[test]
fn a_recurring_investment_splits_the_rewards() {
    let mut u = user(UserTier::Gold);
    u.stake_amount = 100;
    u.stake_start_time = 7;
    let compound = preferences(RewardMode::RecurringInvestment, 33, CompoundStrategy::Compound, 0);
    assert_eq!(handle_recurring_investment(&mut u, 1_000, &compound, 55), Ok(Some(670)));
    assert_eq!(u.stake_amount, 430);
    assert_eq!(u.stake_start_time, 55);
    assert_eq!(u.total_rewards_received, 670);
    let simple = preferences(RewardMode::RecurringInvestment, 100, CompoundStrategy::Simple, 0);
    assert_eq!(handle_recurring_investment(&mut u, 10, &simple, 99), Ok(None));
    assert_eq!(u.stake_amount, 440);
    assert_eq!(u.stake_start_time, 55);
    assert_eq!(u.total_rewards_received, 670);
    let none = preferences(RewardMode::RecurringInvestment, 0, CompoundStrategy::Compound, 0);
    assert_eq!(handle_recurring_investment(&mut u, 10, &none, 99), Ok(Some(10)));
    assert_eq!(u.stake_amount, 440);
    assert_eq!(u.stake_start_time, 55);
    assert_eq!(u.total_rewards_received, 680);
}

#[test]
fn a_recurring_investment_out_of_range_changes_nothing() {
    let mut u = user(UserTier::Gold);
    u.stake_amount = u64::MAX;
    let before = u.clone();
    let over = preferences(RewardMode::RecurringInvestment, 101, CompoundStrategy::Compound, 0);
    assert_eq!(
        handle_recurring_investment(&mut u, 100, &over, 1),
        Err(LendingError::ArithmeticOverflow)
    );
    let half = preferences(RewardMode::RecurringInvestment, 50, CompoundStrategy::Compound, 0);
    assert_eq!(
        handle_recurring_investment(&mut u, 2, &half, 1),
        Err(LendingError::ArithmeticOverflow)
    );
    assert_eq!(
        handle_recurring_investment(&mut u, u64::MAX, &half, 1),
        Err(LendingError::ArithmeticOverflow)
    );
    assert_eq!(u, before);
    assert_eq!(handle_recurring_investment(&mut u, 1, &half, 1), Ok(Some(1)));
}

#[test]
fn a_batch_is_paid_once_it_is_full() {
    let mut u = user(UserTier::Gold);
    let p = preferences(RewardMode::RealTimeBatch, 0, CompoundStrategy::Simple, 100);
    assert_eq!(handle_real_time_batch(&mut u, 60, &p, 5), Ok(None));
    assert_eq!(u.accumulated_rewards, 60);
    assert_eq!(u.last_payout_time, 0);
    assert_eq!(handle_real_time_batch(&mut u, 40, &p, 6), Ok(Some(100)));
    assert_eq!(u.accumulated_rewards, 0);
    assert_eq!(u.last_payout_time, 6);
    assert_eq!(u.total_rewards_received, 100);
    u.accumulated_rewards = u64::MAX;
    let before = u.clone();
    assert_eq!(handle_real_time_batch(&mut u, 1, &p, 7), Err(LendingError::ArithmeticOverflow));
    assert_eq!(handle_real_time_batch(&mut u, 0, &p, 7), Err(LendingError::ArithmeticOverflow));
    assert_eq!(u, before);
}

#[test]
fn rewards_are_distributed_as_preferred() {
    let mut u = user(UserTier::Silver);
    u.stake_amount = 1_000_000;
    assert_eq!(distribute_rewards(&mut u, YEAR), Ok(Some(17_000_000)));
    assert_eq!(u.total_rewards_received, 17_000_000);
    assert_eq!(u.stake_amount, 1_000_000);

    let mut v = user(UserTier::Silver);
    v.stake_amount = 1_000_000;
    v.reward_preferences =
        Some(preferences(RewardMode::RecurringInvestment, 80, CompoundStrategy::Compound, 0));
    assert_eq!(distribute_rewards(&mut v, YEAR), Ok(Some(3_400_000)));
    assert_eq!(v.stake_amount, 14_600_000);
    assert_eq!(v.stake_start_time, YEAR);
    assert_eq!(v.total_rewards_received, 3_400_000);

    let mut w = user(UserTier::Silver);
    w.stake_amount = 1_000_000;
    w.reward_preferences =
        Some(preferences(RewardMode::RealTimeBatch, 80, CompoundStrategy::Compound, 20_000_000));
    assert_eq!(distribute_rewards(&mut w, YEAR), Ok(None));
    assert_eq!(w.accumulated_rewards, 17_000_000);
    assert_eq!(distribute_rewards(&mut w, YEAR), Ok(Some(34_000_000)));
    assert_eq!(w.accumulated_rewards, 0);
    assert_eq!(w.last_payout_time, YEAR);

    let mut x = user(UserTier::Silver);
    x.stake_amount = 1_000_000_000;
    let before = x.clone();
    assert_eq!(distribute_rewards(&mut x, YEAR), Err(LendingError::ArithmeticOverflow));
    assert_eq!(x, before);
}

#[test]
fn a_stake_sets_up_the_account() {
    let mut m = initialize_market(key(1), 1);
    let mut u = user(UserTier::Gold);
    assert_eq!(
        stake_with_immediate_liquidity(&mut m, &mut u, 5_000, Some(30), Some(key(8)), 1_000),
        Ok(())
    );
    let mut expected = user(UserTier::Gold);
    expected.stake_amount = 5_000;
    expected.jupsol_amount = 5_000;
    expected.stake_start_time = 1_000;
    expected.lock_duration_days = 30;
    expected.intended_end_time = 1_000 + 30 * DAY;
    expected.immediate_liquidity_available = true;
    expected.kamino_multiply_position = Some(key(8));
    expected.reward_preferences = Some(RewardPreferences {
        mode: RewardMode::RecurringInvestment,
        reinvestment_percentage: 80,
        compound_strategy: CompoundStrategy::Compound,
        batch_size: 0,
        batch_frequency: BatchFrequency::Instant,
        payout_threshold: 0,
        auto_compound: false,
        lock_duration_days: 30,
    });
    assert_eq!(u, expected);
    assert_eq!(m.total_deposits, 5_000);
}

#[test]
fn a_stake_without_duration_locks_for_a_day() {
    let mut m = initialize_market(key(1), 1);
    let mut u = user(UserTier::Gold);
    assert_eq!(stake_with_immediate_liquidity(&mut m, &mut u, 5, None, None, 10), Ok(()));
    assert_eq!(u.lock_duration_days, 1);
    assert_eq!(u.intended_end_time, 10 + DAY);
    assert_eq!(u.kamino_multiply_position, None);
    assert_eq!(u.reward_preferences.unwrap().lock_duration_days, 1);
}

#[test]
fn a_stake_out_of_range_changes_nothing() {
    let mut m = initialize_market(key(1), 1);
    let mut u = user(UserTier::Gold);
    let before = (m, u.clone());
    assert_eq!(
        stake_with_immediate_liquidity(&mut m, &mut u, 5, Some(1), None, i64::MAX - DAY + 1),
        Err(LendingError::ArithmeticOverflow)
    );
    m.total_deposits = u64::MAX;
    assert_eq!(
        stake_with_immediate_liquidity(&mut m, &mut u, 1, Some(1), Some(key(3)), 0),
        Err(LendingError::ArithmeticOverflow)
    );
    m.total_deposits = 0;
    assert_eq!((m, u.clone()), before);
    assert_eq!(
        stake_with_immediate_liquidity(&mut m, &mut u, 5, Some(1), None, i64::MAX - DAY),
        Ok(())
    );
    assert_eq!(u.intended_end_time, i64::MAX);
}

#[test]
fn a_stake_withdrawn_at_its_end_is_paid_in_full() {
    let mut m = initialize_market(key(1), 1);
    let mut u = user(UserTier::Gold);
    stake_with_immediate_liquidity(&mut m, &mut u, 5_000, Some(2), Some(key(8)), 100).unwrap();
    assert_eq!(
        withdraw_with_immediate_liquidity(&mut u, 100 + 2 * DAY),
        Ok(StakeWithdrawal { to_user: 5_000, penalty: None })
    );
    assert_eq!(u, user(UserTier::Gold));
}

#[test]
fn a_stake_withdrawn_early_pays_the_commitment() {
    let mut m = initialize_market(key(1), 1);
    let mut u = user(UserTier::Silver);
    stake_with_immediate_liquidity(&mut m, &mut u, 1_000_000, Some(1), None, 0).unwrap();
    assert_eq!(
        withdraw_with_immediate_liquidity(&mut u, DAY - 1),
        Ok(StakeWithdrawal { to_user: 953_425, penalty: Some(46_575) })
    );
    assert_eq!(u, user(UserTier::Silver));
}

#[test]
fn a_penalty_beyond_the_holding_is_an_overflow() {
    let mut m = initialize_market(key(1), 1);
    let mut u = user(UserTier::Silver);
    stake_with_immediate_liquidity(&mut m, &mut u, 1_000_000, Some(365), None, 0).unwrap();
    let before = u.clone();
    assert_eq!(
        withdraw_with_immediate_liquidity(&mut u, 5),
        Err(LendingError::ArithmeticOverflow)
    );
    assert_eq!(u, before);
}

#[test]
fn a_payment_of_nothing_is_still_a_payment_where_one_is_due() {
    let mut u = user(UserTier::Gold);
    assert_eq!(distribute_rewards(&mut u, 0), Ok(Some(0)));
    let p = preferences(RewardMode::RealTimeBatch, 0, CompoundStrategy::Simple, 0);
    assert_eq!(handle_real_time_batch(&mut u, 0, &p, 9), Ok(Some(0)));
    assert_eq!(u.last_payout_time, 9);
    let q = preferences(RewardMode::RecurringInvestment, 50, CompoundStrategy::Simple, 0);
    assert_eq!(handle_recurring_investment(&mut u, 0, &q, 9), Ok(None));
}

#[test]
fn an_early_exit_without_rewards_names_a_penalty_of_nothing() {
    let mut u = user(UserTier::Gold);
    u.intended_end_time = 10;
    assert_eq!(
        withdraw_with_immediate_liquidity(&mut u, 5),
        Ok(StakeWithdrawal { to_user: 0, penalty: Some(0) })
    );
}

#[test]
fn the_tier_multiplier_is_a_plain_factor() {
    assert_eq!(rewards_over(10_000, 0, YEAR, UserTier::Gold), Ok(212_500));
}
