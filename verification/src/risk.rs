//! Borrowing capacity and solvency.
//!
//! Risk is valued flat: every deposit counts at face value whatever its
//! reserve, and a user may owe up to 75% of the sum of all deposits.

use vstd::prelude::*;
use crate::arith::BPS_DENOMINATOR;
use crate::error::LendingError;
use crate::ledger::{lemma_total_of_prefix, total_amount};
use crate::state::{
    borrow_positions,
    deposit_positions,
    Ledger,
    Position,
    UserAccount,
    UserBorrow,
    UserDeposit,
};

verus! {

/// The share of the collateral that may be borrowed, in basis points.
pub const FLAT_LTV_BPS: u64 = 7_500;

/// What the user's deposits are worth as collateral: their sum.
pub open spec fn collateral_value(ledger: Ledger) -> nat {
    total_amount(ledger.deposits)
}

/// What the user owes: the sum of the borrow entries.
pub open spec fn borrow_value(ledger: Ledger) -> nat {
    total_amount(ledger.borrows)
}

/// The most that may be owed against `collateral`: 75% of it, rounded down.
pub open spec fn limit_for(collateral: nat) -> nat {
    collateral * (FLAT_LTV_BPS as nat) / (BPS_DENOMINATOR as nat)
}

/// The most that the user may owe.
pub open spec fn borrow_limit(ledger: Ledger) -> nat {
    limit_for(collateral_value(ledger))
}

/// Whether the user owes no more than the deposits support.
pub open spec fn solvent(ledger: Ledger) -> bool {
    borrow_value(ledger) <= borrow_limit(ledger)
}

/// The limit never exceeds the collateral, and more collateral never lowers
/// it.
pub proof fn lemma_limit_for(less: nat, more: nat)
    requires
        less <= more,
    ensures
        limit_for(less) <= limit_for(more) <= more,
{
    assert(less * 7_500 / 10_000 <= more * 7_500 / 10_000 <= more) by (nonlinear_arith)
        requires
            0 <= less <= more,
    ;
}

/// The borrow limit for a collateral value that fits in 64 bits.
pub fn limit_for_collateral(collateral: u64) -> (limit: u64)
    ensures
        limit == limit_for(collateral as nat),
{
    proof {
        lemma_limit_for(collateral as nat, collateral as nat);
    }
    let product: u128 = (collateral as u128) * (FLAT_LTV_BPS as u128);
    (product / (BPS_DENOMINATOR as u128)) as u64
}

/// The sum of the deposit entries, or the overflow error where it leaves the
/// 64-bit range.
pub fn sum_deposits(entries: &Vec<UserDeposit>) -> (total: Result<u64, LendingError>)
    ensures
        total_amount(deposit_positions(entries@)) <= u64::MAX ==> total == Ok::<u64, LendingError>(
            total_amount(deposit_positions(entries@)) as u64,
        ),
        total_amount(deposit_positions(entries@)) > u64::MAX ==> total == Err::<u64, LendingError>(
            LendingError::ArithmeticOverflow,
        ),
{
    let ghost positions = deposit_positions(entries@);
    let mut total: u64 = 0;
    let mut i: usize = 0;
    proof {
        assert(positions.take(0) =~= Seq::<Position>::empty());
    }
    while i < entries.len()
        invariant
            i <= entries.len(),
            positions == deposit_positions(entries@),
            total == total_amount(positions.take(i as int)),
        decreases entries.len() - i,
    {
        proof {
            assert(positions.take(i + 1).drop_last() =~= positions.take(i as int));
            lemma_total_of_prefix(positions, i + 1);
        }
        match total.checked_add(entries[i].amount) {
            Some(sum) => {
                total = sum;
            },
            None => {
                return Err(LendingError::ArithmeticOverflow);
            },
        }
        i += 1;
    }
    proof {
        assert(positions.take(i as int) =~= positions);
    }
    Ok(total)
}

/// The sum of the borrow entries, or the overflow error where it leaves the
/// 64-bit range.
pub fn sum_borrows(entries: &Vec<UserBorrow>) -> (total: Result<u64, LendingError>)
    ensures
        total_amount(borrow_positions(entries@)) <= u64::MAX ==> total == Ok::<u64, LendingError>(
            total_amount(borrow_positions(entries@)) as u64,
        ),
        total_amount(borrow_positions(entries@)) > u64::MAX ==> total == Err::<u64, LendingError>(
            LendingError::ArithmeticOverflow,
        ),
{
    let ghost positions = borrow_positions(entries@);
    let mut total: u64 = 0;
    let mut i: usize = 0;
    proof {
        assert(positions.take(0) =~= Seq::<Position>::empty());
    }
    while i < entries.len()
        invariant
            i <= entries.len(),
            positions == borrow_positions(entries@),
            total == total_amount(positions.take(i as int)),
        decreases entries.len() - i,
    {
        proof {
            assert(positions.take(i + 1).drop_last() =~= positions.take(i as int));
            lemma_total_of_prefix(positions, i + 1);
        }
        match total.checked_add(entries[i].amount) {
            Some(sum) => {
                total = sum;
            },
            None => {
                return Err(LendingError::ArithmeticOverflow);
            },
        }
        i += 1;
    }
    proof {
        assert(positions.take(i as int) =~= positions);
    }
    Ok(total)
}

/// The most that the user may owe: 75% of the sum of all deposits, rounded
/// down. Fails where that sum leaves the 64-bit range.
pub fn calculate_borrow_limit(user_account: &UserAccount) -> (limit: Result<u64, LendingError>)
    ensures
        collateral_value(user_account@) <= u64::MAX ==> limit == Ok::<u64, LendingError>(
            borrow_limit(user_account@) as u64,
        ),
        collateral_value(user_account@) > u64::MAX ==> limit == Err::<u64, LendingError>(
            LendingError::ArithmeticOverflow,
        ),
{
    match sum_deposits(&user_account.deposits) {
        Ok(collateral) => Ok(limit_for_collateral(collateral)),
        Err(e) => Err(e),
    }
}

/// What the user owes: the sum of all borrow entries. Fails where that sum
/// leaves the 64-bit range.
pub fn calculate_total_borrow(user_account: &UserAccount) -> (total: Result<u64, LendingError>)
    ensures
        borrow_value(user_account@) <= u64::MAX ==> total == Ok::<u64, LendingError>(
            borrow_value(user_account@) as u64,
        ),
        borrow_value(user_account@) > u64::MAX ==> total == Err::<u64, LendingError>(
            LendingError::ArithmeticOverflow,
        ),
{
    sum_borrows(&user_account.borrows)
}

/// Whether the user owes no more than the deposits support. Fails where
/// either sum leaves the 64-bit range.
pub fn is_solvent(user_account: &UserAccount) -> (verdict: Result<bool, LendingError>)
    ensures
        collateral_value(user_account@) <= u64::MAX && borrow_value(user_account@) <= u64::MAX
            ==> verdict == Ok::<bool, LendingError>(solvent(user_account@)),
        collateral_value(user_account@) > u64::MAX || borrow_value(user_account@) > u64::MAX
            ==> verdict == Err::<bool, LendingError>(LendingError::ArithmeticOverflow),
{
    let limit = match calculate_borrow_limit(user_account) {
        Ok(limit) => limit,
        Err(e) => { return Err(e); },
    };
    let owed = match calculate_total_borrow(user_account) {
        Ok(owed) => owed,
        Err(e) => { return Err(e); },
    };
    Ok(owed <= limit)
}

} // verus!
