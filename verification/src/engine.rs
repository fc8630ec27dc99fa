//! The operations of the lending engine: deposit, borrow, repay, withdraw,
//! liquidate and flash loan.
//!
//! Each operation is a step from the books before it to the books after it,
//! given here as a spec function that either names the books after the step
//! or the reason for refusing it. The executable operation checks everything
//! first and writes afterwards: it lands exactly on the books that the step
//! names, and on a refusal it leaves market, reserve and account untouched.
//!
//! The engine decides amounts; the host moves the assets. Operations that
//! settle less than was asked for return what is to be moved.

use vstd::prelude::*;
use crate::arith::{bps_share, try_add, try_bps_share, try_sub};
use crate::error::LendingError;
use crate::index::{accrue, lemma_accrual_never_shrinks, INDEX_SCALE};
use crate::key::AccountKey;
use crate::ledger::{
    accrued_balance,
    balance_at,
    balance_in_range,
    has_entry,
    lemma_total_with_balance,
    position_of,
    total_amount,
    upserted,
    with_balance,
};
use crate::risk::{
    borrow_limit,
    borrow_value,
    calculate_borrow_limit,
    calculate_total_borrow,
    collateral_value,
    limit_for,
    limit_for_collateral,
    sum_deposits,
};
use crate::state::{
    InterestRateModel,
    Ledger,
    Market,
    Position,
    Reserve,
    UserAccount,
    UserBorrow,
    UserDeposit,
};

verus! {

/// What one operation works on: the market, one reserve, and the ledger of
/// one user.
pub ghost struct Books {
    pub market: Market,
    pub reserve: Reserve,
    pub ledger: Ledger,
}

/// The books that an operation is handed.
pub open spec fn books_of(market: Market, reserve: Reserve, user_account: UserAccount) -> Books {
    Books { market, reserve, ledger: user_account@ }
}

/// Whether the records after an operation are what `step` says: on success
/// the books that it names, with the rest of the account as before; on a
/// refusal the very records from before.
pub open spec fn lands_on(
    step: Result<Books, LendingError>,
    market_before: Market,
    reserve_before: Reserve,
    account_before: UserAccount,
    market_after: Market,
    reserve_after: Reserve,
    account_after: UserAccount,
) -> bool {
    match step {
        Ok(after) => {
            &&& market_after == after.market
            &&& reserve_after == after.reserve
            &&& account_after@ == after.ledger
            &&& account_after == (UserAccount {
                deposits: account_after.deposits,
                borrows: account_after.borrows,
                ..account_before
            })
        },
        Err(_) => {
            &&& market_after == market_before
            &&& reserve_after == reserve_before
            &&& account_after == account_before
        },
    }
}

/// Whether the host's transfer went through.
#[derive(Clone, Copy, Debug, PartialEq, Eq)]
pub enum TransferOutcome {
    Completed,
    Failed,
}

/// What a liquidation settles: the liquidator pays `repaid` into the reserve
/// and receives `bonus` from it.
#[derive(Clone, Copy, Debug, PartialEq, Eq)]
pub struct Liquidation {
    pub repaid: u64,
    pub bonus: u64,
}

/// The smaller of two amounts.
pub open spec fn lesser(a: int, b: int) -> int {
    if a <= b {
        a
    } else {
        b
    }
}

/// A deposit of `amount` into the reserve at `reserve_key`: the user's
/// deposit entry is brought up to date and grows by `amount`, as do the
/// deposit totals of reserve and market, and the reserve is stamped with
/// `slot`.
pub open spec fn deposit_step(books: Books, reserve_key: Seq<u8>, amount: u64, slot: u64) -> Result<
    Books,
    LendingError,
> {
    match upserted(books.ledger.deposits, reserve_key, books.reserve.deposit_index, amount) {
        Err(e) => Err(e),
        Ok(deposits) => if books.reserve.total_deposits + amount > u64::MAX
            || books.market.total_deposits + amount > u64::MAX {
            Err(LendingError::ArithmeticOverflow)
        } else {
            Ok(
                Books {
                    market: Market {
                        total_deposits: (books.market.total_deposits + amount) as u64,
                        ..books.market
                    },
                    reserve: Reserve {
                        total_deposits: (books.reserve.total_deposits + amount) as u64,
                        last_update: slot,
                        ..books.reserve
                    },
                    ledger: Ledger { deposits, ..books.ledger },
                },
            )
        },
    }
}

/// A borrow of `amount` from the reserve at `reserve_key`. The reserve must
/// hold `amount` that is not lent out, whoever asks; and what the user owes
/// as written down, plus `amount`, must stay within the borrow limit. Then
/// the borrow entry is brought up to date and grows by `amount`, as do the
/// borrow totals of reserve and market, and the reserve is stamped with
/// `slot`.
pub open spec fn borrow_step(books: Books, reserve_key: Seq<u8>, amount: u64, slot: u64) -> Result<
    Books,
    LendingError,
> {
    if amount > books.reserve.total_deposits - books.reserve.total_borrows {
        Err(LendingError::InsufficientLiquidity)
    } else if collateral_value(books.ledger) > u64::MAX || borrow_value(books.ledger) + amount
        > u64::MAX {
        Err(LendingError::ArithmeticOverflow)
    } else if borrow_value(books.ledger) + amount > borrow_limit(books.ledger) {
        Err(LendingError::InsufficientCollateral)
    } else {
        match upserted(books.ledger.borrows, reserve_key, books.reserve.borrow_index, amount) {
            Err(e) => Err(e),
            Ok(borrows) => if books.market.total_borrows + amount > u64::MAX {
                Err(LendingError::ArithmeticOverflow)
            } else {
                Ok(
                    Books {
                        market: Market {
                            total_borrows: (books.market.total_borrows + amount) as u64,
                            ..books.market
                        },
                        reserve: Reserve {
                            total_borrows: (books.reserve.total_borrows + amount) as u64,
                            last_update: slot,
                            ..books.reserve
                        },
                        ledger: Ledger { borrows, ..books.ledger },
                    },
                )
            },
        }
    }
}

/// What a repayment of `amount` actually pays: the debt brought up to date,
/// where `amount` exceeds it.
pub open spec fn repay_amount(books: Books, reserve_key: Seq<u8>, amount: u64) -> int {
    lesser(
        amount as int,
        balance_at(books.ledger.borrows, reserve_key, books.reserve.borrow_index),
    )
}

/// A repayment of up to `amount` to the reserve at `reserve_key`: the borrow
/// entry is brought up to date and shrinks by what is paid, as do the borrow
/// totals of reserve and market, and the reserve is stamped with `slot`.
pub open spec fn repay_step(books: Books, reserve_key: Seq<u8>, amount: u64, slot: u64) -> Result<
    Books,
    LendingError,
> {
    match accrued_balance(
        books.ledger.borrows,
        reserve_key,
        books.reserve.borrow_index,
        LendingError::NoBorrowFound,
    ) {
        Err(e) => Err(e),
        Ok(balance) => {
            let paid = repay_amount(books, reserve_key, amount);
            if books.reserve.total_borrows < paid || books.market.total_borrows < paid {
                Err(LendingError::ArithmeticOverflow)
            } else {
                Ok(
                    Books {
                        market: Market {
                            total_borrows: (books.market.total_borrows - paid) as u64,
                            ..books.market
                        },
                        reserve: Reserve {
                            total_borrows: (books.reserve.total_borrows - paid) as u64,
                            last_update: slot,
                            ..books.reserve
                        },
                        ledger: Ledger {
                            borrows: with_balance(
                                books.ledger.borrows,
                                reserve_key,
                                (balance - paid) as u64,
                                books.reserve.borrow_index,
                            ),
                            ..books.ledger
                        },
                    },
                )
            }
        },
    }
}

/// A withdrawal of `amount` from the reserve at `reserve_key`. The deposit
/// brought up to date must cover `amount`, and with the deposit lowered by
/// `amount` the user must still owe no more than the limit. Then the deposit
/// entry shrinks by `amount`, as do the deposit totals of reserve and market,
/// and the reserve is stamped with `slot`.
pub open spec fn withdraw_step(books: Books, reserve_key: Seq<u8>, amount: u64, slot: u64) -> Result<
    Books,
    LendingError,
> {
    match accrued_balance(
        books.ledger.deposits,
        reserve_key,
        books.reserve.deposit_index,
        LendingError::NoDepositFound,
    ) {
        Err(e) => Err(e),
        Ok(balance) => {
            let index = books.reserve.deposit_index;
            let accrued = with_balance(books.ledger.deposits, reserve_key, balance, index);
            let lowered = with_balance(
                books.ledger.deposits,
                reserve_key,
                (balance - amount) as u64,
                index,
            );
            if amount > balance {
                Err(LendingError::InsufficientBalance)
            } else if total_amount(accrued) > u64::MAX || borrow_value(books.ledger) > u64::MAX {
                Err(LendingError::ArithmeticOverflow)
            } else if borrow_value(books.ledger) > limit_for(total_amount(lowered)) {
                Err(LendingError::InsufficientCollateral)
            } else if books.reserve.total_deposits < amount || books.market.total_deposits
                < amount {
                Err(LendingError::ArithmeticOverflow)
            } else {
                Ok(
                    Books {
                        market: Market {
                            total_deposits: (books.market.total_deposits - amount) as u64,
                            ..books.market
                        },
                        reserve: Reserve {
                            total_deposits: (books.reserve.total_deposits - amount) as u64,
                            last_update: slot,
                            ..books.reserve
                        },
                        ledger: Ledger { deposits: lowered, ..books.ledger },
                    },
                )
            }
        },
    }
}

/// The borrow entries of the user with the debt to the reserve at
/// `reserve_key` brought up to date, where there is such a debt.
pub open spec fn borrows_brought_up(books: Books, reserve_key: Seq<u8>) -> Seq<Position> {
    if has_entry(books.ledger.borrows, reserve_key) {
        with_balance(
            books.ledger.borrows,
            reserve_key,
            balance_at(books.ledger.borrows, reserve_key, books.reserve.borrow_index) as u64,
            books.reserve.borrow_index,
        )
    } else {
        books.ledger.borrows
    }
}

/// Whether the user may be liquidated: with the debt to the reserve brought
/// up to date, the user owes more than the deposits support.
pub open spec fn liquidatable(books: Books, reserve_key: Seq<u8>) -> bool {
    total_amount(borrows_brought_up(books, reserve_key)) > borrow_limit(books.ledger)
}

/// What a liquidation of `amount` actually settles: the debt brought up to
/// date, where `amount` exceeds it.
pub open spec fn liquidation_amount(books: Books, reserve_key: Seq<u8>, amount: u64) -> int {
    lesser(
        amount as int,
        balance_at(books.ledger.borrows, reserve_key, books.reserve.borrow_index),
    )
}

/// The bonus that the reserve pays the liquidator: the reserve's liquidation
/// penalty, in basis points, of what is settled.
pub open spec fn liquidation_bonus(books: Books, reserve_key: Seq<u8>, amount: u64) -> int {
    bps_share(
        liquidation_amount(books, reserve_key, amount) as u64,
        books.reserve.liquidation_penalty,
    )
}

/// A liquidation of up to `amount` of the user's debt to the reserve at
/// `reserve_key`. The user must owe more than the limit once that debt is
/// brought up to date. Then the borrow entry shrinks by what is settled, as
/// do the borrow totals of reserve and market.
pub open spec fn liquidate_step(books: Books, reserve_key: Seq<u8>, amount: u64) -> Result<
    Books,
    LendingError,
> {
    let entries = books.ledger.borrows;
    let index = books.reserve.borrow_index;
    let present = has_entry(entries, reserve_key);
    if present && !balance_in_range(entries, reserve_key, index) {
        Err(LendingError::ArithmeticOverflow)
    } else if collateral_value(books.ledger) > u64::MAX || total_amount(
        borrows_brought_up(books, reserve_key),
    ) > u64::MAX {
        Err(LendingError::ArithmeticOverflow)
    } else if !liquidatable(books, reserve_key) {
        Err(LendingError::PositionNotLiquidatable)
    } else if !present {
        Err(LendingError::NoBorrowFound)
    } else {
        let settled = liquidation_amount(books, reserve_key, amount);
        let bonus = liquidation_bonus(books, reserve_key, amount);
        if settled + bonus > u64::MAX || books.reserve.total_borrows < settled
            || books.market.total_borrows < settled {
            Err(LendingError::ArithmeticOverflow)
        } else {
            Ok(
                Books {
                    market: Market {
                        total_borrows: (books.market.total_borrows - settled) as u64,
                        ..books.market
                    },
                    reserve: Reserve {
                        total_borrows: (books.reserve.total_borrows - settled) as u64,
                        ..books.reserve
                    },
                    ledger: Ledger {
                        borrows: with_balance(
                            entries,
                            reserve_key,
                            (balance_at(entries, reserve_key, index) - settled) as u64,
                            index,
                        ),
                        ..books.ledger
                    },
                },
            )
        }
    }
}

/// A flash loan of `amount` against `fee`, given how the repayment of
/// `amount + fee` went: where it went through, the reserve keeps the fee as a
/// deposit; where it did not, nothing has happened.
pub open spec fn flash_loan_step(
    reserve: Reserve,
    amount: u64,
    fee: u64,
    repayment: TransferOutcome,
) -> Result<Reserve, LendingError> {
    if amount + fee > u64::MAX {
        Err(LendingError::ArithmeticOverflow)
    } else if repayment == TransferOutcome::Failed {
        Err(LendingError::TransferFailed)
    } else if reserve.total_deposits + fee > u64::MAX {
        Err(LendingError::ArithmeticOverflow)
    } else {
        Ok(Reserve { total_deposits: (reserve.total_deposits + fee) as u64, ..reserve })
    }
}

/// A new market under `authority`: no deposits, no borrows, a reserve factor
/// of 10%, and the standard rate curve (5% base, 20% slope, 50% jump slope
/// from 80% utilization on).
pub fn initialize_market(authority: AccountKey, market_bump: u8) -> (market: Market)
    ensures
        market == (Market {
            authority,
            bump: market_bump,
            total_deposits: 0,
            total_borrows: 0,
            reserve_factor: 1000,
            interest_rate_model: InterestRateModel {
                base_rate: 500,
                multiplier: 2000,
                jump_multiplier: 5000,
                kink: 8000,
            },
        }),
{
    Market {
        authority,
        bump: market_bump,
        total_deposits: 0,
        total_borrows: 0,
        reserve_factor: 1000,
        interest_rate_model: InterestRateModel {
            base_rate: 500,
            multiplier: 2000,
            jump_multiplier: 5000,
            kink: 8000,
        },
    }
}

/// A new reserve of `market` for the asset `mint`, first stamped with `slot`:
/// empty, with both indices at 1.0.
pub fn add_reserve(
    market: AccountKey,
    mint: AccountKey,
    reserve_bump: u8,
    ltv_ratio: u16,
    liquidation_threshold: u16,
    liquidation_penalty: u16,
    slot: u64,
) -> (reserve: Reserve)
    ensures
        reserve == (Reserve {
            market,
            mint,
            ltv_ratio,
            liquidation_threshold,
            liquidation_penalty,
            bump: reserve_bump,
            total_deposits: 0,
            total_borrows: 0,
            deposit_index: INDEX_SCALE,
            borrow_index: INDEX_SCALE,
            last_update: slot,
        }),
{
    Reserve {
        market,
        mint,
        ltv_ratio,
        liquidation_threshold,
        liquidation_penalty,
        bump: reserve_bump,
        total_deposits: 0,
        total_borrows: 0,
        deposit_index: INDEX_SCALE,
        borrow_index: INDEX_SCALE,
        last_update: slot,
    }
}

/// Deposits `amount` into the reserve at `reserve_key` at slot `slot`.
///
/// Fails only where a balance or a total would leave the 64-bit range.
pub fn deposit(
    market: &mut Market,
    reserve: &mut Reserve,
    user_account: &mut UserAccount,
    reserve_key: &AccountKey,
    amount: u64,
    slot: u64,
) -> (done: Result<(), LendingError>)
    ensures
        lands_on(
            deposit_step(
                books_of(*old(market), *old(reserve), *old(user_account)),
                reserve_key@,
                amount,
                slot,
            ),
            *old(market),
            *old(reserve),
            *old(user_account),
            *final(market),
            *final(reserve),
            *final(user_account),
        ),
        match deposit_step(
            books_of(*old(market), *old(reserve), *old(user_account)),
            reserve_key@,
            amount,
            slot,
        ) {
            Ok(_) => done is Ok,
            Err(e) => done == Err::<(), LendingError>(e),
        },
{
    let index = reserve.deposit_index;
    let found = user_account.deposit_position(reserve_key);
    let (recorded, snapshot) = match found {
        Some(i) => (user_account.deposits[i].amount, user_account.deposits[i].deposit_index),
        None => (0, index),
    };
    let balance = match accrue(recorded, snapshot, index) {
        Ok(balance) => balance,
        Err(e) => { return Err(e); },
    };
    let sum = match try_add(balance, amount) {
        Ok(sum) => sum,
        Err(e) => { return Err(e); },
    };
    let reserve_total = match try_add(reserve.total_deposits, amount) {
        Ok(total) => total,
        Err(e) => { return Err(e); },
    };
    let market_total = match try_add(market.total_deposits, amount) {
        Ok(total) => total,
        Err(e) => { return Err(e); },
    };
    user_account.store_deposit(
        found,
        UserDeposit { reserve: *reserve_key, amount: sum, deposit_index: index },
    );
    reserve.total_deposits = reserve_total;
    reserve.last_update = slot;
    market.total_deposits = market_total;
    Ok(())
}

/// Borrows `amount` from the reserve at `reserve_key` at slot `slot`.
///
/// The reserve's idle liquidity is checked first, so that a reserve that is
/// lent out refuses every borrower for that reason; then the collateral, on
/// the ledger as it is written down.
pub fn borrow(
    market: &mut Market,
    reserve: &mut Reserve,
    user_account: &mut UserAccount,
    reserve_key: &AccountKey,
    amount: u64,
    slot: u64,
) -> (done: Result<(), LendingError>)
    ensures
        lands_on(
            borrow_step(
                books_of(*old(market), *old(reserve), *old(user_account)),
                reserve_key@,
                amount,
                slot,
            ),
            *old(market),
            *old(reserve),
            *old(user_account),
            *final(market),
            *final(reserve),
            *final(user_account),
        ),
        match borrow_step(
            books_of(*old(market), *old(reserve), *old(user_account)),
            reserve_key@,
            amount,
            slot,
        ) {
            Ok(_) => done is Ok,
            Err(e) => done == Err::<(), LendingError>(e),
        },
{
    if reserve.total_borrows > reserve.total_deposits || amount > reserve.total_deposits
        - reserve.total_borrows {
        return Err(LendingError::InsufficientLiquidity);
    }
    let limit = match calculate_borrow_limit(user_account) {
        Ok(limit) => limit,
        Err(e) => { return Err(e); },
    };
    let owed = match calculate_total_borrow(user_account) {
        Ok(owed) => owed,
        Err(e) => { return Err(e); },
    };
    let wanted = match try_add(owed, amount) {
        Ok(wanted) => wanted,
        Err(e) => { return Err(e); },
    };
    if wanted > limit {
        return Err(LendingError::InsufficientCollateral);
    }
    let index = reserve.borrow_index;
    let found = user_account.borrow_position(reserve_key);
    let (recorded, snapshot) = match found {
        Some(i) => (user_account.borrows[i].amount, user_account.borrows[i].borrow_index),
        None => (0, index),
    };
    let balance = match accrue(recorded, snapshot, index) {
        Ok(balance) => balance,
        Err(e) => { return Err(e); },
    };
    let sum = match try_add(balance, amount) {
        Ok(sum) => sum,
        Err(e) => { return Err(e); },
    };
    let market_total = match try_add(market.total_borrows, amount) {
        Ok(total) => total,
        Err(e) => { return Err(e); },
    };
    user_account.store_borrow(
        found,
        UserBorrow { reserve: *reserve_key, amount: sum, borrow_index: index },
    );
    reserve.total_borrows = reserve.total_borrows + amount;
    reserve.last_update = slot;
    market.total_borrows = market_total;
    Ok(())
}

/// Repays up to `amount` of the debt to the reserve at `reserve_key` at slot
/// `slot`, and returns what was paid: `amount`, or the whole debt brought up
/// to date where `amount` exceeds it. That, and no more, is what the host
/// moves from the user to the reserve.
pub fn repay(
    market: &mut Market,
    reserve: &mut Reserve,
    user_account: &mut UserAccount,
    reserve_key: &AccountKey,
    amount: u64,
    slot: u64,
) -> (paid: Result<u64, LendingError>)
    ensures
        lands_on(
            repay_step(
                books_of(*old(market), *old(reserve), *old(user_account)),
                reserve_key@,
                amount,
                slot,
            ),
            *old(market),
            *old(reserve),
            *old(user_account),
            *final(market),
            *final(reserve),
            *final(user_account),
        ),
        match repay_step(
            books_of(*old(market), *old(reserve), *old(user_account)),
            reserve_key@,
            amount,
            slot,
        ) {
            Ok(_) => paid == Ok::<u64, LendingError>(
                repay_amount(
                    books_of(*old(market), *old(reserve), *old(user_account)),
                    reserve_key@,
                    amount,
                ) as u64,
            ),
            Err(e) => paid == Err::<u64, LendingError>(e),
        },
{
    let index = reserve.borrow_index;
    let found = user_account.borrow_position(reserve_key);
    let balance = match user_account.accrued_borrow(reserve_key, index) {
        Ok(balance) => balance,
        Err(e) => { return Err(e); },
    };
    let paid = if amount <= balance {
        amount
    } else {
        balance
    };
    let reserve_total = match try_sub(reserve.total_borrows, paid) {
        Ok(total) => total,
        Err(e) => { return Err(e); },
    };
    let market_total = match try_sub(market.total_borrows, paid) {
        Ok(total) => total,
        Err(e) => { return Err(e); },
    };
    user_account.store_borrow(
        found,
        UserBorrow { reserve: *reserve_key, amount: balance - paid, borrow_index: index },
    );
    reserve.total_borrows = reserve_total;
    reserve.last_update = slot;
    market.total_borrows = market_total;
    Ok(paid)
}

/// Withdraws `amount` from the deposit in the reserve at `reserve_key` at
/// slot `slot`.
///
/// Solvency is judged on the ledger as it would stand after the withdrawal,
/// before anything is written.
pub fn withdraw(
    market: &mut Market,
    reserve: &mut Reserve,
    user_account: &mut UserAccount,
    reserve_key: &AccountKey,
    amount: u64,
    slot: u64,
) -> (done: Result<(), LendingError>)
    ensures
        lands_on(
            withdraw_step(
                books_of(*old(market), *old(reserve), *old(user_account)),
                reserve_key@,
                amount,
                slot,
            ),
            *old(market),
            *old(reserve),
            *old(user_account),
            *final(market),
            *final(reserve),
            *final(user_account),
        ),
        match withdraw_step(
            books_of(*old(market), *old(reserve), *old(user_account)),
            reserve_key@,
            amount,
            slot,
        ) {
            Ok(_) => done is Ok,
            Err(e) => done == Err::<(), LendingError>(e),
        },
{
    let index = reserve.deposit_index;
    let found = user_account.deposit_position(reserve_key);
    let recorded = match found {
        Some(i) => user_account.deposits[i].amount,
        None => { return Err(LendingError::NoDepositFound); },
    };
    let balance = match user_account.accrued_deposit(reserve_key, index) {
        Ok(balance) => balance,
        Err(e) => { return Err(e); },
    };
    if amount > balance {
        return Err(LendingError::InsufficientBalance);
    }
    proof {
        lemma_total_with_balance(user_account@.deposits, reserve_key@, balance, index);
        lemma_total_with_balance(
            user_account@.deposits,
            reserve_key@,
            (balance - amount) as u64,
            index,
        );
        lemma_accrual_never_shrinks(
            recorded,
            user_account@.deposits[position_of(user_account@.deposits, reserve_key@)].index,
            index,
        );
    }
    let written = match sum_deposits(&user_account.deposits) {
        Ok(written) => written,
        Err(e) => { return Err(e); },
    };
    let collateral = match try_add(written - recorded, balance) {
        Ok(collateral) => collateral,
        Err(e) => { return Err(e); },
    };
    let owed = match calculate_total_borrow(user_account) {
        Ok(owed) => owed,
        Err(e) => { return Err(e); },
    };
    if owed > limit_for_collateral(collateral - amount) {
        return Err(LendingError::InsufficientCollateral);
    }
    let reserve_total = match try_sub(reserve.total_deposits, amount) {
        Ok(total) => total,
        Err(e) => { return Err(e); },
    };
    let market_total = match try_sub(market.total_deposits, amount) {
        Ok(total) => total,
        Err(e) => { return Err(e); },
    };
    user_account.store_deposit(
        found,
        UserDeposit { reserve: *reserve_key, amount: balance - amount, deposit_index: index },
    );
    reserve.total_deposits = reserve_total;
    reserve.last_update = slot;
    market.total_deposits = market_total;
    Ok(())
}

/// Liquidates up to `amount` of the debt of `liquidated_user_account` to the
/// reserve at `reserve_key`, and returns what the liquidator pays and what
/// bonus the reserve pays back.
///
/// The user's deposits are not touched, and the reserve keeps its stamp.
pub fn liquidate(
    market: &mut Market,
    reserve: &mut Reserve,
    liquidated_user_account: &mut UserAccount,
    reserve_key: &AccountKey,
    amount: u64,
) -> (settled: Result<Liquidation, LendingError>)
    ensures
        lands_on(
            liquidate_step(
                books_of(*old(market), *old(reserve), *old(liquidated_user_account)),
                reserve_key@,
                amount,
            ),
            *old(market),
            *old(reserve),
            *old(liquidated_user_account),
            *final(market),
            *final(reserve),
            *final(liquidated_user_account),
        ),
        match liquidate_step(
            books_of(*old(market), *old(reserve), *old(liquidated_user_account)),
            reserve_key@,
            amount,
        ) {
            Ok(_) => settled == Ok::<Liquidation, LendingError>(
                Liquidation {
                    repaid: liquidation_amount(
                        books_of(*old(market), *old(reserve), *old(liquidated_user_account)),
                        reserve_key@,
                        amount,
                    ) as u64,
                    bonus: liquidation_bonus(
                        books_of(*old(market), *old(reserve), *old(liquidated_user_account)),
                        reserve_key@,
                        amount,
                    ) as u64,
                },
            ),
            Err(e) => settled == Err::<Liquidation, LendingError>(e),
        },
{
    let index = reserve.borrow_index;
    let found = liquidated_user_account.borrow_position(reserve_key);
    let (recorded, balance) = match found {
        Some(i) => {
            let entry = liquidated_user_account.borrows[i];
            match accrue(entry.amount, entry.borrow_index, index) {
                Ok(balance) => (entry.amount, balance),
                Err(e) => { return Err(e); },
            }
        },
        None => (0, 0),
    };
    proof {
        lemma_total_with_balance(liquidated_user_account@.borrows, reserve_key@, balance, index);
    }
    let limit = match calculate_borrow_limit(liquidated_user_account) {
        Ok(limit) => limit,
        Err(e) => { return Err(e); },
    };
    let written = match calculate_total_borrow(liquidated_user_account) {
        Ok(written) => written,
        Err(e) => { return Err(e); },
    };
    let owed = match try_add(written - recorded, balance) {
        Ok(owed) => owed,
        Err(e) => { return Err(e); },
    };
    if owed <= limit {
        return Err(LendingError::PositionNotLiquidatable);
    }
    if found.is_none() {
        return Err(LendingError::NoBorrowFound);
    }
    let repaid = if amount <= balance {
        amount
    } else {
        balance
    };
    let bonus = match try_bps_share(repaid, reserve.liquidation_penalty) {
        Ok(bonus) => bonus,
        Err(e) => { return Err(e); },
    };
    match try_add(repaid, bonus) {
        Ok(_) => {},
        Err(e) => { return Err(e); },
    }
    let reserve_total = match try_sub(reserve.total_borrows, repaid) {
        Ok(total) => total,
        Err(e) => { return Err(e); },
    };
    let market_total = match try_sub(market.total_borrows, repaid) {
        Ok(total) => total,
        Err(e) => { return Err(e); },
    };
    liquidated_user_account.store_borrow(
        found,
        UserBorrow { reserve: *reserve_key, amount: balance - repaid, borrow_index: index },
    );
    reserve.total_borrows = reserve_total;
    market.total_borrows = market_total;
    Ok(Liquidation { repaid, bonus })
}

/// What the borrower of a flash loan has to pay back: `amount + fee`.
pub fn flash_loan_repayment(amount: u64, fee: u64) -> (due: Result<u64, LendingError>)
    ensures
        amount + fee <= u64::MAX ==> due == Ok::<u64, LendingError>((amount + fee) as u64),
        amount + fee > u64::MAX ==> due == Err::<u64, LendingError>(
            LendingError::ArithmeticOverflow,
        ),
{
    try_add(amount, fee)
}

/// Settles a flash loan of `amount` against `fee`, given how the repayment
/// of `amount + fee` went. No borrow is ever written down: where the
/// repayment failed the reserve is as it was before the loan, and where it
/// went through the reserve's deposits grow by the fee.
pub fn flash_loan(reserve: &mut Reserve, amount: u64, fee: u64, repayment: TransferOutcome) -> (done:
    Result<(), LendingError>)
    ensures
        match flash_loan_step(*old(reserve), amount, fee, repayment) {
            Ok(after) => done is Ok && *final(reserve) == after,
            Err(e) => done == Err::<(), LendingError>(e) && *final(reserve) == *old(reserve),
        },
{
    match try_add(amount, fee) {
        Ok(_) => {},
        Err(e) => { return Err(e); },
    }
    match repayment {
        TransferOutcome::Failed => { return Err(LendingError::TransferFailed); },
        TransferOutcome::Completed => {},
    }
    let total = match try_add(reserve.total_deposits, fee) {
        Ok(total) => total,
        Err(e) => { return Err(e); },
    };
    reserve.total_deposits = total;
    Ok(())
}

/// Deposits `amount` of the native asset into its reserve at slot `slot`.
///
/// The books move as for any other deposit; only the way in which the host
/// moves the funds differs.
pub fn deposit_sol(
    market: &mut Market,
    sol_reserve: &mut Reserve,
    user_account: &mut UserAccount,
    sol_reserve_key: &AccountKey,
    amount: u64,
    slot: u64,
) -> (done: Result<(), LendingError>)
    ensures
        lands_on(
            deposit_step(
                books_of(*old(market), *old(sol_reserve), *old(user_account)),
                sol_reserve_key@,
                amount,
                slot,
            ),
            *old(market),
            *old(sol_reserve),
            *old(user_account),
            *final(market),
            *final(sol_reserve),
            *final(user_account),
        ),
        match deposit_step(
            books_of(*old(market), *old(sol_reserve), *old(user_account)),
            sol_reserve_key@,
            amount,
            slot,
        ) {
            Ok(_) => done is Ok,
            Err(e) => done == Err::<(), LendingError>(e),
        },
{
    deposit(market, sol_reserve, user_account, sol_reserve_key, amount, slot)
}

/// Withdraws `amount` of the native asset from its reserve at slot `slot`.
///
/// The books move as for any other withdrawal; only the way in which the
/// host moves the funds differs.
pub fn withdraw_sol(
    market: &mut Market,
    sol_reserve: &mut Reserve,
    user_account: &mut UserAccount,
    sol_reserve_key: &AccountKey,
    amount: u64,
    slot: u64,
) -> (done: Result<(), LendingError>)
    ensures
        lands_on(
            withdraw_step(
                books_of(*old(market), *old(sol_reserve), *old(user_account)),
                sol_reserve_key@,
                amount,
                slot,
            ),
            *old(market),
            *old(sol_reserve),
            *old(user_account),
            *final(market),
            *final(sol_reserve),
            *final(user_account),
        ),
        match withdraw_step(
            books_of(*old(market), *old(sol_reserve), *old(user_account)),
            sol_reserve_key@,
            amount,
            slot,
        ) {
            Ok(_) => done is Ok,
            Err(e) => done == Err::<(), LendingError>(e),
        },
{
    withdraw(market, sol_reserve, user_account, sol_reserve_key, amount, slot)
}

} // verus!
