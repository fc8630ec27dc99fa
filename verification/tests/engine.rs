use kamino_lending::engine::{
    add_reserve, borrow, deposit, deposit_sol, flash_loan, flash_loan_repayment,
    initialize_market, liquidate, repay, withdraw, withdraw_sol, Liquidation, TransferOutcome,
};
use kamino_lending::error::LendingError;
use kamino_lending::key::AccountKey;
use kamino_lending::state::{
    InterestRateModel, Market, Reserve, UserAccount, UserBorrow, UserDeposit, UserTier,
};

const ONE: u64 = 1_000_000_000;

fn key(tag: u8) -> AccountKey {
    AccountKey::new([tag; 32])
}

fn market() -> Market {
    initialize_market(key(100), 255)
}

fn reserve(mint: u8) -> Reserve {
    add_reserve(key(100), key(mint), 254, 8000, 8500, 500, 1)
}

fn user() -> UserAccount {
    UserAccount::new(key(50), UserTier::Gold)
}

#[test]
fn a_new_market_has_the_standard_parameters() {
    assert_eq!(
        market(),
        Market {
            authority: key(100),
            bump: 255,
            total_deposits: 0,
            total_borrows: 0,
            reserve_factor: 1000,
            interest_rate_model: InterestRateModel {
                base_rate: 500,
                multiplier: 2000,
                jump_multiplier: 5000,
                kink: 8000,
            },
        }
    );
}

#[test]
fn a_new_reserve_starts_at_index_one() {
    assert_eq!(
        reserve(7),
        Reserve {
            market: key(100),
            mint: key(7),
            ltv_ratio: 8000,
            liquidation_threshold: 8500,
            liquidation_penalty: 500,
            bump: 254,
            total_deposits: 0,
            total_borrows: 0,
            deposit_index: 1_000_000_000,
            borrow_index: 1_000_000_000,
            last_update: 1,
        }
    );
}

#[test]
fn deposit_books_the_amount_everywhere() {
    let (mut m, mut r, mut u) = (market(), reserve(1), user());
    assert_eq!(deposit(&mut m, &mut r, &mut u, &key(1), 1_000, 42), Ok(()));
    assert_eq!(u.deposits, vec![UserDeposit { reserve: key(1), amount: 1_000, deposit_index: ONE }]);
    assert_eq!(r.total_deposits, 1_000);
    assert_eq!(r.last_update, 42);
    assert_eq!(m.total_deposits, 1_000);
    assert_eq!(m.total_borrows, 0);
    assert_eq!(r.total_borrows, 0);
    assert!(u.borrows.is_empty());
}

#[test]
fn deposit_accrues_a_stale_entry_first() {
    let (mut m, mut r, mut u) = (market(), reserve(1), user());
    deposit(&mut m, &mut r, &mut u, &key(1), 1_000_000, 2).unwrap();
    r.deposit_index = 1_100_000_000;
    assert_eq!(deposit(&mut m, &mut r, &mut u, &key(1), 5, 3), Ok(()));
    assert_eq!(
        u.deposits,
        vec![UserDeposit { reserve: key(1), amount: 1_100_005, deposit_index: 1_100_000_000 }]
    );
    assert_eq!(r.total_deposits, 1_000_005);
    assert_eq!(m.total_deposits, 1_000_005);
    assert_eq!(r.deposit_index, 1_100_000_000);
}

#[test]
fn deposit_that_overflows_a_total_changes_nothing() {
    let (mut m, mut r, mut u) = (market(), reserve(1), user());
    m.total_deposits = u64::MAX - 9;
    let before = (m, r, u.clone());
    assert_eq!(
        deposit(&mut m, &mut r, &mut u, &key(1), 10, 5),
        Err(LendingError::ArithmeticOverflow)
    );
    assert_eq!((m, r, u.clone()), before);
    assert_eq!(deposit(&mut m, &mut r, &mut u, &key(1), 9, 5), Ok(()));
    assert_eq!(m.total_deposits, u64::MAX);
}

#[test]
fn deposit_then_withdraw_restores_everything() {
    let (mut m, mut r, mut u) = (market(), reserve(1), user());
    deposit(&mut m, &mut r, &mut u, &key(1), 700, 2).unwrap();
    borrow(&mut m, &mut r, &mut u, &key(1), 100, 3).unwrap();
    let before = (m, r, u.clone());
    deposit(&mut m, &mut r, &mut u, &key(1), 12_345, 4).unwrap();
    assert_eq!(u.deposits[0].amount, 13_045);
    assert_eq!(withdraw(&mut m, &mut r, &mut u, &key(1), 12_345, 4), Ok(()));
    assert_eq!(u, before.2);
    assert_eq!(m, before.0);
    assert_eq!(r.total_deposits, before.1.total_deposits);
    assert_eq!(r.total_borrows, before.1.total_borrows);
    assert_eq!(Reserve { last_update: before.1.last_update, ..r }, before.1);
}

#[test]
fn deposit_then_withdraw_into_a_new_reserve_leaves_an_inert_entry() {
    let (mut m, mut r, mut u) = (market(), reserve(1), user());
    deposit(&mut m, &mut r, &mut u, &key(1), 9, 2).unwrap();
    withdraw(&mut m, &mut r, &mut u, &key(1), 9, 2).unwrap();
    assert_eq!(u.deposits, vec![UserDeposit { reserve: key(1), amount: 0, deposit_index: ONE }]);
    assert_eq!(m.total_deposits, 0);
    assert_eq!(r.total_deposits, 0);
}

#[test]
fn borrow_is_bounded_by_three_quarters_of_the_deposits() {
    let (mut m, mut r, mut u) = (market(), reserve(1), user());
    deposit(&mut m, &mut r, &mut u, &key(1), 1_000, 2).unwrap();
    let before = (m, r, u.clone());
    assert_eq!(
        borrow(&mut m, &mut r, &mut u, &key(1), 751, 3),
        Err(LendingError::InsufficientCollateral)
    );
    assert_eq!((m, r, u.clone()), before);
    assert_eq!(borrow(&mut m, &mut r, &mut u, &key(1), 750, 3), Ok(()));
    assert_eq!(u.borrows, vec![UserBorrow { reserve: key(1), amount: 750, borrow_index: ONE }]);
    assert_eq!(r.total_borrows, 750);
    assert_eq!(m.total_borrows, 750);
    assert_eq!(r.last_update, 3);
    assert_eq!(r.total_deposits, 1_000);
    assert_eq!(
        borrow(&mut m, &mut r, &mut u, &key(1), 1, 4),
        Err(LendingError::InsufficientCollateral)
    );
    assert_eq!(borrow(&mut m, &mut r, &mut u, &key(1), 0, 4), Ok(()));
}

#[test]
fn borrow_is_bounded_by_the_idle_liquidity() {
    let (mut m, mut a, mut b, mut u) = (market(), reserve(1), reserve(2), user());
    deposit(&mut m, &mut b, &mut u, &key(2), 1_000_000, 2).unwrap();
    a.total_deposits = 500;
    a.total_borrows = 500;
    let before = (m, a, u.clone());
    assert_eq!(
        borrow(&mut m, &mut a, &mut u, &key(1), 1, 3),
        Err(LendingError::InsufficientLiquidity)
    );
    assert_eq!(
        borrow(&mut m, &mut a, &mut u, &key(1), 500, 3),
        Err(LendingError::InsufficientLiquidity)
    );
    assert_eq!((m, a, u.clone()), before);
    a.total_borrows = 501;
    assert_eq!(
        borrow(&mut m, &mut a, &mut u, &key(1), 1, 3),
        Err(LendingError::InsufficientLiquidity)
    );
    a.total_borrows = 400;
    assert_eq!(
        borrow(&mut m, &mut a, &mut u, &key(1), 101, 3),
        Err(LendingError::InsufficientLiquidity)
    );
    assert_eq!(borrow(&mut m, &mut a, &mut u, &key(1), 100, 3), Ok(()));
    assert_eq!(a.total_borrows, 500);
}

#[test]
fn borrow_checks_liquidity_before_collateral() {
    let (mut m, mut r, mut u) = (market(), reserve(1), user());
    r.total_deposits = 500;
    r.total_borrows = 500;
    let before = (m, r, u.clone());
    assert_eq!(
        borrow(&mut m, &mut r, &mut u, &key(1), 1, 3),
        Err(LendingError::InsufficientLiquidity)
    );
    assert_eq!(
        borrow(&mut m, &mut r, &mut u, &key(1), u64::MAX, 3),
        Err(LendingError::InsufficientLiquidity)
    );
    assert_eq!((m, r, u.clone()), before);
    assert_eq!(borrow(&mut m, &mut r, &mut u, &key(1), 0, 3), Ok(()));
    let mut empty = reserve(2);
    assert_eq!(
        borrow(&mut m, &mut empty, &mut u, &key(2), 1, 3),
        Err(LendingError::InsufficientLiquidity)
    );
}

#[test]
fn borrow_without_collateral_is_refused_by_a_liquid_reserve() {
    let (mut m, mut r, mut u) = (market(), reserve(1), user());
    r.total_deposits = 1_000;
    let before = (m, r, u.clone());
    assert_eq!(
        borrow(&mut m, &mut r, &mut u, &key(1), 1, 3),
        Err(LendingError::InsufficientCollateral)
    );
    assert_eq!((m, r, u.clone()), before);
}

#[test]
fn repay_of_nothing_only_accrues() {
    let (mut m, mut r, mut u) = (market(), reserve(1), user());
    deposit(&mut m, &mut r, &mut u, &key(1), 1_000_000, 2).unwrap();
    borrow(&mut m, &mut r, &mut u, &key(1), 100_000, 3).unwrap();
    r.borrow_index = 1_100_000_000;
    assert_eq!(repay(&mut m, &mut r, &mut u, &key(1), 0, 4), Ok(0));
    assert_eq!(
        u.borrows,
        vec![UserBorrow { reserve: key(1), amount: 110_000, borrow_index: 1_100_000_000 }]
    );
    assert_eq!(r.total_borrows, 100_000);
    assert_eq!(m.total_borrows, 100_000);
    let once = u.clone();
    assert_eq!(repay(&mut m, &mut r, &mut u, &key(1), 0, 5), Ok(0));
    assert_eq!(u, once);
    assert_eq!(r.last_update, 5);
}

#[test]
fn borrow_accrues_the_debt_before_it_adds() {
    let (mut m, mut r, mut u) = (market(), reserve(1), user());
    deposit(&mut m, &mut r, &mut u, &key(1), 1_000_000, 2).unwrap();
    borrow(&mut m, &mut r, &mut u, &key(1), 100_000, 3).unwrap();
    r.borrow_index = 1_500_000_000;
    assert_eq!(borrow(&mut m, &mut r, &mut u, &key(1), 1_000, 4), Ok(()));
    assert_eq!(
        u.borrows,
        vec![UserBorrow { reserve: key(1), amount: 151_000, borrow_index: 1_500_000_000 }]
    );
    assert_eq!(r.total_borrows, 101_000);
    assert_eq!(m.total_borrows, 101_000);
}

#[test]
fn borrow_with_sums_out_of_range_is_an_overflow() {
    let (mut m, mut r, mut u) = (market(), reserve(1), user());
    u.upsert_deposit(&key(1), ONE, u64::MAX).unwrap();
    u.upsert_deposit(&key(2), ONE, 1).unwrap();
    r.total_deposits = 10;
    let before = (m, r, u.clone());
    assert_eq!(
        borrow(&mut m, &mut r, &mut u, &key(1), 1, 3),
        Err(LendingError::ArithmeticOverflow)
    );
    assert_eq!((m, r, u.clone()), before);
}

#[test]
fn repay_is_clamped_to_the_debt() {
    let (mut m, mut r, mut u) = (market(), reserve(1), user());
    deposit(&mut m, &mut r, &mut u, &key(1), 1_000, 2).unwrap();
    borrow(&mut m, &mut r, &mut u, &key(1), 500, 3).unwrap();
    assert_eq!(repay(&mut m, &mut r, &mut u, &key(1), 800, 4), Ok(500));
    assert_eq!(u.borrows, vec![UserBorrow { reserve: key(1), amount: 0, borrow_index: ONE }]);
    assert_eq!(r.total_borrows, 0);
    assert_eq!(m.total_borrows, 0);
    assert_eq!(r.last_update, 4);
    assert_eq!(repay(&mut m, &mut r, &mut u, &key(1), 1, 5), Ok(0));
}

#[test]
fn repay_in_part_leaves_the_rest() {
    let (mut m, mut r, mut u) = (market(), reserve(1), user());
    deposit(&mut m, &mut r, &mut u, &key(1), 1_000_000, 2).unwrap();
    borrow(&mut m, &mut r, &mut u, &key(1), 100_000, 3).unwrap();
    r.borrow_index = 1_100_000_000;
    assert_eq!(repay(&mut m, &mut r, &mut u, &key(1), 10_000, 4), Ok(10_000));
    assert_eq!(
        u.borrows,
        vec![UserBorrow { reserve: key(1), amount: 100_000, borrow_index: 1_100_000_000 }]
    );
    assert_eq!(r.total_borrows, 90_000);
    assert_eq!(m.total_borrows, 90_000);
}

#[test]
fn repay_needs_a_borrow() {
    let (mut m, mut r, mut u) = (market(), reserve(1), user());
    deposit(&mut m, &mut r, &mut u, &key(1), 1_000, 2).unwrap();
    let before = (m, r, u.clone());
    assert_eq!(repay(&mut m, &mut r, &mut u, &key(1), 1, 3), Err(LendingError::NoBorrowFound));
    assert_eq!((m, r, u.clone()), before);
}

#[test]
fn repay_beyond_the_totals_is_an_overflow() {
    let (mut m, mut r, mut u) = (market(), reserve(1), user());
    deposit(&mut m, &mut r, &mut u, &key(1), 1_000, 2).unwrap();
    borrow(&mut m, &mut r, &mut u, &key(1), 500, 3).unwrap();
    r.borrow_index = 2_000_000_000;
    let before = (m, r, u.clone());
    assert_eq!(
        repay(&mut m, &mut r, &mut u, &key(1), 501, 4),
        Err(LendingError::ArithmeticOverflow)
    );
    assert_eq!((m, r, u.clone()), before);
    assert_eq!(repay(&mut m, &mut r, &mut u, &key(1), 500, 4), Ok(500));
    assert_eq!(u.borrows[0].amount, 500);
}

#[test]
fn withdraw_reduces_the_deposit() {
    let (mut m, mut r, mut u) = (market(), reserve(1), user());
    deposit(&mut m, &mut r, &mut u, &key(1), 1_000, 2).unwrap();
    r.deposit_index = 1_200_000_000;
    m.total_deposits = 5_000;
    r.total_deposits = 2_000;
    assert_eq!(withdraw(&mut m, &mut r, &mut u, &key(1), 1_100, 9), Ok(()));
    assert_eq!(
        u.deposits,
        vec![UserDeposit { reserve: key(1), amount: 100, deposit_index: 1_200_000_000 }]
    );
    assert_eq!(r.total_deposits, 900);
    assert_eq!(m.total_deposits, 3_900);
    assert_eq!(r.last_update, 9);
}

#[test]
fn withdraw_is_refused_without_entry_balance_or_collateral() {
    let (mut m, mut r, mut u) = (market(), reserve(1), user());
    assert_eq!(
        withdraw(&mut m, &mut r, &mut u, &key(1), 0, 3),
        Err(LendingError::NoDepositFound)
    );
    deposit(&mut m, &mut r, &mut u, &key(1), 1_000, 2).unwrap();
    borrow(&mut m, &mut r, &mut u, &key(1), 300, 3).unwrap();
    let before = (m, r, u.clone());
    assert_eq!(
        withdraw(&mut m, &mut r, &mut u, &key(1), 1_001, 4),
        Err(LendingError::InsufficientBalance)
    );
    assert_eq!(
        withdraw(&mut m, &mut r, &mut u, &key(1), 601, 4),
        Err(LendingError::InsufficientCollateral)
    );
    assert_eq!(
        withdraw(&mut m, &mut r, &mut u, &key(2), 1, 4),
        Err(LendingError::NoDepositFound)
    );
    assert_eq!((m, r, u.clone()), before);
    assert_eq!(withdraw(&mut m, &mut r, &mut u, &key(1), 600, 4), Ok(()));
    assert_eq!(u.deposits[0].amount, 400);
}

#[test]
fn withdraw_beyond_the_totals_is_an_overflow() {
    let (mut m, mut r, mut u) = (market(), reserve(1), user());
    deposit(&mut m, &mut r, &mut u, &key(1), 1_000, 2).unwrap();
    r.deposit_index = 2_000_000_000;
    let before = (m, r, u.clone());
    assert_eq!(
        withdraw(&mut m, &mut r, &mut u, &key(1), 1_001, 4),
        Err(LendingError::ArithmeticOverflow)
    );
    assert_eq!((m, r, u.clone()), before);
}

#[test]
fn liquidation_waits_for_insolvency() {
    let (mut m, mut r, mut u) = (market(), reserve(1), user());
    deposit(&mut m, &mut r, &mut u, &key(1), 1_000, 2).unwrap();
    borrow(&mut m, &mut r, &mut u, &key(1), 750, 3).unwrap();
    let before = (m, r, u.clone());
    assert_eq!(
        liquidate(&mut m, &mut r, &mut u, &key(1), 300),
        Err(LendingError::PositionNotLiquidatable)
    );
    assert_eq!((m, r, u.clone()), before);
    r.borrow_index = 1_100_000_000;
    assert_eq!(
        liquidate(&mut m, &mut r, &mut u, &key(1), 300),
        Ok(Liquidation { repaid: 300, bonus: 15 })
    );
    assert_eq!(
        u.borrows,
        vec![UserBorrow { reserve: key(1), amount: 525, borrow_index: 1_100_000_000 }]
    );
    assert_eq!(u.deposits, before.2.deposits);
    assert_eq!(r.total_borrows, 450);
    assert_eq!(m.total_borrows, 450);
    assert_eq!(r.total_deposits, 1_000);
    assert_eq!(r.last_update, 3);
    assert_eq!(
        liquidate(&mut m, &mut r, &mut u, &key(1), 300),
        Err(LendingError::PositionNotLiquidatable)
    );
}

#[test]
fn liquidation_is_clamped_to_the_debt() {
    let (mut m, mut r, mut u) = (market(), reserve(1), user());
    deposit(&mut m, &mut r, &mut u, &key(1), 1_000, 2).unwrap();
    borrow(&mut m, &mut r, &mut u, &key(1), 750, 3).unwrap();
    r.borrow_index = 1_100_000_000;
    r.total_borrows = 5_000;
    m.total_borrows = 6_000;
    assert_eq!(
        liquidate(&mut m, &mut r, &mut u, &key(1), 10_000),
        Ok(Liquidation { repaid: 825, bonus: 41 })
    );
    assert_eq!(
        u.borrows,
        vec![UserBorrow { reserve: key(1), amount: 0, borrow_index: 1_100_000_000 }]
    );
    assert_eq!(r.total_borrows, 4_175);
    assert_eq!(m.total_borrows, 5_175);
}

#[test]
fn liquidation_beyond_the_totals_is_an_overflow() {
    let (mut m, mut r, mut u) = (market(), reserve(1), user());
    deposit(&mut m, &mut r, &mut u, &key(1), 1_000, 2).unwrap();
    borrow(&mut m, &mut r, &mut u, &key(1), 750, 3).unwrap();
    r.borrow_index = 1_100_000_000;
    let before = (m, r, u.clone());
    assert_eq!(
        liquidate(&mut m, &mut r, &mut u, &key(1), 751),
        Err(LendingError::ArithmeticOverflow)
    );
    assert_eq!((m, r, u.clone()), before);
}

#[test]
fn liquidation_names_the_gate_before_the_missing_borrow() {
    let (mut m, mut a, mut b, mut u) = (market(), reserve(1), reserve(2), user());
    assert_eq!(
        liquidate(&mut m, &mut a, &mut u, &key(1), 1),
        Err(LendingError::PositionNotLiquidatable)
    );
    deposit(&mut m, &mut a, &mut u, &key(1), 1_000, 2).unwrap();
    borrow(&mut m, &mut a, &mut u, &key(1), 750, 3).unwrap();
    assert_eq!(
        liquidate(&mut m, &mut b, &mut u, &key(2), 1),
        Err(LendingError::PositionNotLiquidatable)
    );
    u.upsert_borrow(&key(1), ONE, 1).unwrap();
    let before = (m, b, u.clone());
    assert_eq!(
        liquidate(&mut m, &mut b, &mut u, &key(2), 1),
        Err(LendingError::NoBorrowFound)
    );
    assert_eq!((m, b, u.clone()), before);
}

#[test]
fn a_flash_loan_that_is_repaid_leaves_the_fee() {
    let mut r = reserve(1);
    r.total_deposits = 1_000;
    r.total_borrows = 10;
    assert_eq!(flash_loan_repayment(400, 4), Ok(404));
    assert_eq!(flash_loan(&mut r, 400, 4, TransferOutcome::Completed), Ok(()));
    assert_eq!(r, Reserve { total_deposits: 1_004, total_borrows: 10, ..reserve(1) });
}

#[test]
fn a_flash_loan_that_is_not_repaid_leaves_nothing() {
    let mut r = reserve(1);
    r.total_deposits = 1_000;
    let before = r;
    assert_eq!(
        flash_loan(&mut r, 400, 4, TransferOutcome::Failed),
        Err(LendingError::TransferFailed)
    );
    assert_eq!(r, before);
}

#[test]
fn a_flash_loan_out_of_range_is_an_overflow() {
    let mut r = reserve(1);
    r.total_deposits = u64::MAX - 3;
    let before = r;
    assert_eq!(flash_loan_repayment(u64::MAX, 1), Err(LendingError::ArithmeticOverflow));
    assert_eq!(
        flash_loan(&mut r, u64::MAX, 1, TransferOutcome::Completed),
        Err(LendingError::ArithmeticOverflow)
    );
    assert_eq!(
        flash_loan(&mut r, u64::MAX, 1, TransferOutcome::Failed),
        Err(LendingError::ArithmeticOverflow)
    );
    assert_eq!(
        flash_loan(&mut r, 10, 4, TransferOutcome::Completed),
        Err(LendingError::ArithmeticOverflow)
    );
    assert_eq!(r, before);
    assert_eq!(flash_loan(&mut r, 10, 3, TransferOutcome::Completed), Ok(()));
    assert_eq!(r.total_deposits, u64::MAX);
}

#[test]
fn the_native_asset_is_booked_like_any_other() {
    let (mut m, mut r, mut u) = (market(), reserve(1), user());
    assert_eq!(deposit_sol(&mut m, &mut r, &mut u, &key(1), 1_000, 2), Ok(()));
    assert_eq!(u.deposits, vec![UserDeposit { reserve: key(1), amount: 1_000, deposit_index: ONE }]);
    assert_eq!(
        withdraw_sol(&mut m, &mut r, &mut u, &key(1), 1_001, 3),
        Err(LendingError::InsufficientBalance)
    );
    assert_eq!(
        withdraw_sol(&mut m, &mut r, &mut u, &key(2), 1, 3),
        Err(LendingError::NoDepositFound)
    );
    assert_eq!(withdraw_sol(&mut m, &mut r, &mut u, &key(1), 250, 3), Ok(()));
    assert_eq!(u.deposits, vec![UserDeposit { reserve: key(1), amount: 750, deposit_index: ONE }]);
    assert_eq!(r.total_deposits, 750);
    assert_eq!(m.total_deposits, 750);
    assert_eq!(r.last_update, 3);
}

#[test]
fn the_rest_of_the_account_is_left_alone() {
    let (mut m, mut r, mut u) = (market(), reserve(1), user());
    u.stake_amount = 77;
    u.accumulated_rewards = 3;
    deposit(&mut m, &mut r, &mut u, &key(1), 1_000, 2).unwrap();
    borrow(&mut m, &mut r, &mut u, &key(1), 10, 2).unwrap();
    repay(&mut m, &mut r, &mut u, &key(1), 10, 2).unwrap();
    withdraw(&mut m, &mut r, &mut u, &key(1), 10, 2).unwrap();
    let mut expected = user();
    expected.stake_amount = 77;
    expected.accumulated_rewards = 3;
    expected.deposits = vec![UserDeposit { reserve: key(1), amount: 990, deposit_index: ONE }];
    expected.borrows = vec![UserBorrow { reserve: key(1), amount: 0, borrow_index: ONE }];
    assert_eq!(u, expected);
}
