//! What holds of the engine's steps, proved from their definitions.

use vstd::prelude::*;
use crate::engine::{
    borrow_step,
    deposit_step,
    flash_loan_step,
    liquidatable,
    liquidate_step,
    liquidation_amount,
    liquidation_bonus,
    repay_amount,
    repay_step,
    withdraw_step,
    Books,
    TransferOutcome,
};
use crate::error::LendingError;
use crate::index::lemma_accrual_never_shrinks;
use crate::ledger::{
    accrued_balance,
    balance_at,
    balance_in_range,
    has_entry,
    lemma_total_with_balance,
    lemma_with_balance_as_recorded,
    lemma_with_balance_keeps_one_entry,
    lemma_with_balance_reads,
    lemma_with_balance_twice,
    one_entry_per_reserve,
    recorded_amount,
    recorded_index,
    total_amount,
    with_balance,
};
use crate::risk::{
    borrow_limit,
    borrow_value,
    collateral_value,
    lemma_limit_for,
    limit_for,
    solvent,
};
use crate::state::{Position, Reserve};

verus! {

/// Bringing an entry up to date twice against the same index is the same as
/// doing it once: after the first time the balance reads the same, and
/// writing it down again changes nothing.
pub proof fn law_second_accrual_changes_nothing(
    entries: Seq<Position>,
    reserve_key: Seq<u8>,
    index: u64,
    missing: LendingError,
)
    requires
        accrued_balance(entries, reserve_key, index, missing) is Ok,
    ensures
        ({
            let balance = accrued_balance(entries, reserve_key, index, missing)->Ok_0;
            let once = with_balance(entries, reserve_key, balance, index);
            &&& balance >= recorded_amount(entries, reserve_key)
            &&& accrued_balance(once, reserve_key, index, missing) == Ok::<u64, LendingError>(
                balance,
            )
            &&& with_balance(once, reserve_key, balance, index) == once
        }),
{
    let balance = accrued_balance(entries, reserve_key, index, missing)->Ok_0;
    lemma_accrual_never_shrinks(
        recorded_amount(entries, reserve_key),
        recorded_index(entries, reserve_key, index),
        index,
    );
    lemma_with_balance_reads(entries, reserve_key, balance, index, reserve_key, index);
    lemma_with_balance_twice(entries, reserve_key, balance, index, balance, index);
}

/// A deposit that is withdrawn again at once, at the same index, leaves
/// everything as it was: the totals of market and reserve are the prior ones,
/// the borrows are untouched, and the deposits are the prior ones with the
/// entry for the reserve brought up to date. Where that entry was there and
/// up to date before, the whole ledger is as before.
///
/// This is stated for a user who was within the borrow limit before the
/// deposit and whose collateral stays in the 64-bit range with it; any other
/// user is refused the withdrawal.
pub proof fn law_deposit_then_withdraw(
    books: Books,
    reserve_key: Seq<u8>,
    amount: u64,
    slot: u64,
    later_slot: u64,
)
    requires
        deposit_step(books, reserve_key, amount, slot) is Ok,
        collateral_value(deposit_step(books, reserve_key, amount, slot)->Ok_0.ledger) <= u64::MAX,
        borrow_value(books.ledger) <= limit_for(
            total_amount(
                with_balance(
                    books.ledger.deposits,
                    reserve_key,
                    balance_at(books.ledger.deposits, reserve_key, books.reserve.deposit_index) as u64,
                    books.reserve.deposit_index,
                ),
            ),
        ),
    ensures
        ({
            let between = deposit_step(books, reserve_key, amount, slot)->Ok_0;
            let back = withdraw_step(between, reserve_key, amount, later_slot);
            let index = books.reserve.deposit_index;
            &&& back is Ok
            &&& back->Ok_0.market == books.market
            &&& back->Ok_0.reserve == (Reserve { last_update: later_slot, ..books.reserve })
            &&& back->Ok_0.ledger.borrows == books.ledger.borrows
            &&& back->Ok_0.ledger.deposits == with_balance(
                books.ledger.deposits,
                reserve_key,
                balance_at(books.ledger.deposits, reserve_key, index) as u64,
                index,
            )
            &&& has_entry(books.ledger.deposits, reserve_key) && recorded_index(
                books.ledger.deposits,
                reserve_key,
                index,
            ) == index ==> back->Ok_0.ledger == books.ledger
        }),
{
    let entries = books.ledger.deposits;
    let index = books.reserve.deposit_index;
    let balance = balance_at(entries, reserve_key, index) as u64;
    let raised = (balance + amount) as u64;
    let between = deposit_step(books, reserve_key, amount, slot)->Ok_0;
    assert(between.ledger.deposits == with_balance(entries, reserve_key, raised, index));
    lemma_with_balance_reads(entries, reserve_key, raised, index, reserve_key, index);
    lemma_with_balance_twice(entries, reserve_key, raised, index, raised, index);
    lemma_with_balance_twice(entries, reserve_key, raised, index, balance, index);
    lemma_total_with_balance(entries, reserve_key, raised, index);
    lemma_total_with_balance(entries, reserve_key, balance, index);
    lemma_limit_for(
        total_amount(with_balance(entries, reserve_key, balance, index)),
        total_amount(with_balance(entries, reserve_key, raised, index)),
    );
    let back = withdraw_step(between, reserve_key, amount, later_slot);
    assert(accrued_balance(
        between.ledger.deposits,
        reserve_key,
        index,
        LendingError::NoDepositFound,
    ) == Ok::<u64, LendingError>(raised));
    assert((raised - amount) as u64 == balance);
    assert(back is Ok);
    if has_entry(entries, reserve_key) && recorded_index(entries, reserve_key, index) == index {
        lemma_with_balance_as_recorded(entries, reserve_key, index);
    }
}

/// A borrow goes through only within the borrow limit: what the user owes
/// plus the amount asked for never exceeds 75% of the deposits, and a borrow
/// that the reserve could pay out but that would exceed the limit is refused
/// for want of collateral.
pub proof fn law_borrow_within_limit(books: Books, reserve_key: Seq<u8>, amount: u64, slot: u64)
    ensures
        borrow_step(books, reserve_key, amount, slot) is Ok ==> borrow_value(books.ledger) + amount
            <= borrow_limit(books.ledger),
        borrow_step(books, reserve_key, amount, slot) == Err::<Books, LendingError>(
            LendingError::InsufficientCollateral,
        ) <==> amount <= books.reserve.total_deposits - books.reserve.total_borrows
            && collateral_value(books.ledger) <= u64::MAX && borrow_limit(books.ledger)
            < borrow_value(books.ledger) + amount <= u64::MAX,
        borrow_step(books, reserve_key, amount, slot) is Ok ==> borrow_step(
            books,
            reserve_key,
            amount,
            slot,
        )->Ok_0.reserve.total_borrows <= books.reserve.total_deposits,
{
}

/// Admission keeps users solvent. After a withdrawal that went through, the
/// user owes no more than the remaining deposits support. The same holds
/// after a borrow that went through, where the debt to the reserve was up to
/// date before, so that the borrow added no interest to it.
pub proof fn law_admission_keeps_solvent(books: Books, reserve_key: Seq<u8>, amount: u64, slot: u64)
    ensures
        withdraw_step(books, reserve_key, amount, slot) is Ok ==> solvent(
            withdraw_step(books, reserve_key, amount, slot)->Ok_0.ledger,
        ),
        borrow_step(books, reserve_key, amount, slot) is Ok && recorded_index(
            books.ledger.borrows,
            reserve_key,
            books.reserve.borrow_index,
        ) == books.reserve.borrow_index ==> solvent(
            borrow_step(books, reserve_key, amount, slot)->Ok_0.ledger,
        ),
{
    if borrow_step(books, reserve_key, amount, slot) is Ok {
        let index = books.reserve.borrow_index;
        let raised = (balance_at(books.ledger.borrows, reserve_key, index) + amount) as u64;
        lemma_total_with_balance(books.ledger.borrows, reserve_key, raised, index);
    }
}

/// A reserve that has lent out all its deposits lends nothing more: every
/// borrow of a positive amount is refused for want of liquidity, whatever the
/// borrower's collateral. More generally, a borrow of more than the reserve
/// holds idle is refused for that reason.
pub proof fn law_liquidity_ceiling(books: Books, reserve_key: Seq<u8>, amount: u64, slot: u64)
    requires
        books.reserve.total_borrows >= books.reserve.total_deposits,
        amount > 0,
    ensures
        borrow_step(books, reserve_key, amount, slot) == Err::<Books, LendingError>(
            LendingError::InsufficientLiquidity,
        ),
        forall|other: Books, wanted: u64|
            wanted > other.reserve.total_deposits - other.reserve.total_borrows ==> #[trigger] borrow_step(
                other,
                reserve_key,
                wanted,
                slot,
            ) == Err::<Books, LendingError>(LendingError::InsufficientLiquidity),
{
}

/// The liquidation gate. A user who, with the debt to the reserve brought up
/// to date, owes no more than the limit is never liquidated, and the refusal
/// names that reason wherever the sums are in range. A liquidation that goes
/// through settles exactly the lesser of the amount asked for and the debt
/// brought up to date, takes that off the borrow entry and off both borrow
/// totals, pays the reserve's penalty rate on it as bonus, and touches
/// neither the deposits nor the reserve's indices and stamp.
pub proof fn law_liquidation_gate(books: Books, reserve_key: Seq<u8>, amount: u64)
    ensures
        !liquidatable(books, reserve_key) ==> liquidate_step(books, reserve_key, amount) is Err,
        !liquidatable(books, reserve_key) && collateral_value(books.ledger) <= u64::MAX && (
        has_entry(books.ledger.borrows, reserve_key) ==> balance_in_range(
            books.ledger.borrows,
            reserve_key,
            books.reserve.borrow_index,
        )) ==> liquidate_step(books, reserve_key, amount) == Err::<Books, LendingError>(
            LendingError::PositionNotLiquidatable,
        ),
        liquidate_step(books, reserve_key, amount) is Ok ==> ({
            let after = liquidate_step(books, reserve_key, amount)->Ok_0;
            let debt = balance_at(books.ledger.borrows, reserve_key, books.reserve.borrow_index);
            let settled = liquidation_amount(books, reserve_key, amount);
            &&& liquidatable(books, reserve_key)
            &&& settled == if amount <= debt {
                amount as int
            } else {
                debt
            }
            &&& recorded_amount(after.ledger.borrows, reserve_key) == debt - settled
            &&& after.reserve.total_borrows == books.reserve.total_borrows - settled
            &&& after.market.total_borrows == books.market.total_borrows - settled
            &&& liquidation_bonus(books, reserve_key, amount) == settled
                * books.reserve.liquidation_penalty / 10000
            &&& after.ledger.deposits == books.ledger.deposits
            &&& after.reserve == (Reserve {
                total_borrows: after.reserve.total_borrows,
                ..books.reserve
            })
        }),
{
    let entries = books.ledger.borrows;
    let index = books.reserve.borrow_index;
    if liquidate_step(books, reserve_key, amount) is Ok {
        let debt = balance_at(entries, reserve_key, index);
        let settled = liquidation_amount(books, reserve_key, amount);
        lemma_with_balance_reads(
            entries,
            reserve_key,
            (debt - settled) as u64,
            index,
            reserve_key,
            index,
        );
    }
    if !liquidatable(books, reserve_key) && collateral_value(books.ledger) <= u64::MAX {
        lemma_limit_for(collateral_value(books.ledger), collateral_value(books.ledger));
    }
}

/// A flash loan whose repayment fails is refused, whatever the amounts: the
/// step names no books after it, so the operation leaves the reserve as it
/// was before the loan.
pub proof fn law_failed_flash_loan(reserve: Reserve, amount: u64, fee: u64)
    ensures
        flash_loan_step(reserve, amount, fee, TransferOutcome::Failed) is Err,
        flash_loan_step(reserve, amount, fee, TransferOutcome::Completed) is Ok ==> flash_loan_step(
            reserve,
            amount,
            fee,
            TransferOutcome::Completed,
        )->Ok_0 == (Reserve { total_deposits: (reserve.total_deposits + fee) as u64, ..reserve }),
{
}

/// The repay clamp. A repayment never pays more than was asked for nor more
/// than the debt brought up to date; the borrow entry and both borrow totals
/// go down by exactly what is paid; and a repayment of the debt or more
/// leaves a debt of exactly zero.
pub proof fn law_repay_clamp(books: Books, reserve_key: Seq<u8>, amount: u64, slot: u64)
    requires
        repay_step(books, reserve_key, amount, slot) is Ok,
    ensures
        ({
            let after = repay_step(books, reserve_key, amount, slot)->Ok_0;
            let debt = balance_at(books.ledger.borrows, reserve_key, books.reserve.borrow_index);
            let paid = repay_amount(books, reserve_key, amount);
            &&& paid <= amount
            &&& paid <= debt
            &&& amount >= debt ==> paid == debt
            &&& amount >= debt ==> recorded_amount(after.ledger.borrows, reserve_key) == 0
            &&& recorded_amount(after.ledger.borrows, reserve_key) == debt - paid
            &&& after.reserve.total_borrows == books.reserve.total_borrows - paid
            &&& after.market.total_borrows == books.market.total_borrows - paid
            &&& after.ledger.deposits == books.ledger.deposits
        }),
{
    let entries = books.ledger.borrows;
    let index = books.reserve.borrow_index;
    let debt = balance_at(entries, reserve_key, index);
    let paid = repay_amount(books, reserve_key, amount);
    lemma_with_balance_reads(entries, reserve_key, (debt - paid) as u64, index, reserve_key, index);
}

/// A repayment of nothing only brings the debt up to date. Where the debt
/// brought up to date fits in 64 bits, it goes through: the entry holds the
/// accrued debt, which is no less than the debt written down before, as of the
/// reserve's borrow index; the totals stay; and a second repayment of nothing
/// at the same index changes no position.
pub proof fn law_repay_of_nothing_only_accrues(
    books: Books,
    reserve_key: Seq<u8>,
    slot: u64,
    later_slot: u64,
)
    requires
        has_entry(books.ledger.borrows, reserve_key),
        balance_in_range(books.ledger.borrows, reserve_key, books.reserve.borrow_index),
    ensures
        ({
            let index = books.reserve.borrow_index;
            let debt = balance_at(books.ledger.borrows, reserve_key, index);
            let once = repay_step(books, reserve_key, 0, slot);
            let twice = repay_step(once->Ok_0, reserve_key, 0, later_slot);
            &&& once is Ok
            &&& repay_amount(books, reserve_key, 0) == 0
            &&& once->Ok_0.ledger.borrows == with_balance(
                books.ledger.borrows,
                reserve_key,
                debt as u64,
                index,
            )
            &&& recorded_amount(once->Ok_0.ledger.borrows, reserve_key) == debt
            &&& debt >= recorded_amount(books.ledger.borrows, reserve_key)
            &&& recorded_index(once->Ok_0.ledger.borrows, reserve_key, 0) == index
            &&& once->Ok_0.ledger.deposits == books.ledger.deposits
            &&& once->Ok_0.market == books.market
            &&& once->Ok_0.reserve == (Reserve { last_update: slot, ..books.reserve })
            &&& twice is Ok
            &&& twice->Ok_0.ledger == once->Ok_0.ledger
            &&& twice->Ok_0.market == books.market
        }),
{
    let entries = books.ledger.borrows;
    let index = books.reserve.borrow_index;
    let debt = balance_at(entries, reserve_key, index) as u64;
    lemma_accrual_never_shrinks(
        recorded_amount(entries, reserve_key),
        recorded_index(entries, reserve_key, index),
        index,
    );
    lemma_with_balance_reads(entries, reserve_key, debt, index, reserve_key, 0);
    lemma_with_balance_reads(entries, reserve_key, debt, index, reserve_key, index);
    lemma_with_balance_twice(entries, reserve_key, debt, index, debt, index);
}

/// Whether a step moved the totals of the market by what it moved the totals
/// of the reserve.
pub open spec fn market_mirrors_reserve(before: Books, step: Result<Books, LendingError>) -> bool {
    step is Ok ==> {
        let after = step->Ok_0;
        &&& after.market.total_deposits - before.market.total_deposits
            == after.reserve.total_deposits - before.reserve.total_deposits
        &&& after.market.total_borrows - before.market.total_borrows == after.reserve.total_borrows
            - before.reserve.total_borrows
    }
}

/// The market's totals mirror the reserves': whatever a deposit, borrow,
/// repayment, withdrawal or liquidation adds to or takes from the totals of
/// the reserve, it adds to or takes from the totals of the market. (The fee
/// of a flash loan is booked on the reserve alone.)
pub proof fn law_market_mirrors_reserve(books: Books, reserve_key: Seq<u8>, amount: u64, slot: u64)
    ensures
        market_mirrors_reserve(books, deposit_step(books, reserve_key, amount, slot)),
        market_mirrors_reserve(books, borrow_step(books, reserve_key, amount, slot)),
        market_mirrors_reserve(books, repay_step(books, reserve_key, amount, slot)),
        market_mirrors_reserve(books, withdraw_step(books, reserve_key, amount, slot)),
        market_mirrors_reserve(books, liquidate_step(books, reserve_key, amount)),
{
}

/// What every step keeps: the reserve's indices and risk parameters, and one
/// entry per reserve on both sides of the ledger.
pub open spec fn keeps_sound(before: Books, step: Result<Books, LendingError>) -> bool {
    step is Ok ==> {
        let after = step->Ok_0;
        &&& after.reserve.deposit_index == before.reserve.deposit_index
        &&& after.reserve.borrow_index == before.reserve.borrow_index
        &&& after.reserve.ltv_ratio == before.reserve.ltv_ratio
        &&& after.reserve.liquidation_threshold == before.reserve.liquidation_threshold
        &&& after.reserve.liquidation_penalty == before.reserve.liquidation_penalty
        &&& one_entry_per_reserve(after.ledger.deposits)
        &&& one_entry_per_reserve(after.ledger.borrows)
    }
}

/// Whether the deposit entry for the reserve is written down as of the
/// reserve's deposit index.
pub open spec fn deposit_up_to_date(books: Books, reserve_key: Seq<u8>) -> bool {
    has_entry(books.ledger.deposits, reserve_key) && recorded_index(
        books.ledger.deposits,
        reserve_key,
        0,
    ) == books.reserve.deposit_index
}

/// Whether the borrow entry for the reserve is written down as of the
/// reserve's borrow index.
pub open spec fn borrow_up_to_date(books: Books, reserve_key: Seq<u8>) -> bool {
    has_entry(books.ledger.borrows, reserve_key) && recorded_index(
        books.ledger.borrows,
        reserve_key,
        0,
    ) == books.reserve.borrow_index
}

/// No step moves an index or a risk parameter of the reserve; every step
/// keeps the ledger at one entry per reserve; and every step leaves the entry
/// that it touched written down as of the reserve's current index, so that no
/// entry is ever ahead of its reserve.
pub proof fn law_steps_keep_the_books_sound(
    books: Books,
    reserve_key: Seq<u8>,
    amount: u64,
    slot: u64,
)
    requires
        one_entry_per_reserve(books.ledger.deposits),
        one_entry_per_reserve(books.ledger.borrows),
    ensures
        keeps_sound(books, deposit_step(books, reserve_key, amount, slot)),
        keeps_sound(books, borrow_step(books, reserve_key, amount, slot)),
        keeps_sound(books, repay_step(books, reserve_key, amount, slot)),
        keeps_sound(books, withdraw_step(books, reserve_key, amount, slot)),
        keeps_sound(books, liquidate_step(books, reserve_key, amount)),
        deposit_step(books, reserve_key, amount, slot) is Ok ==> deposit_up_to_date(
            deposit_step(books, reserve_key, amount, slot)->Ok_0,
            reserve_key,
        ),
        withdraw_step(books, reserve_key, amount, slot) is Ok ==> deposit_up_to_date(
            withdraw_step(books, reserve_key, amount, slot)->Ok_0,
            reserve_key,
        ),
        borrow_step(books, reserve_key, amount, slot) is Ok ==> borrow_up_to_date(
            borrow_step(books, reserve_key, amount, slot)->Ok_0,
            reserve_key,
        ),
        repay_step(books, reserve_key, amount, slot) is Ok ==> borrow_up_to_date(
            repay_step(books, reserve_key, amount, slot)->Ok_0,
            reserve_key,
        ),
        liquidate_step(books, reserve_key, amount) is Ok ==> borrow_up_to_date(
            liquidate_step(books, reserve_key, amount)->Ok_0,
            reserve_key,
        ),
{
    let deposits = books.ledger.deposits;
    let borrows = books.ledger.borrows;
    let deposit_index = books.reserve.deposit_index;
    let borrow_index = books.reserve.borrow_index;
    assert forall|value: u64|
        one_entry_per_reserve(#[trigger] with_balance(deposits, reserve_key, value, deposit_index))
            && has_entry(with_balance(deposits, reserve_key, value, deposit_index), reserve_key)
            && recorded_index(with_balance(deposits, reserve_key, value, deposit_index), reserve_key, 0)
            == deposit_index by {
        lemma_with_balance_keeps_one_entry(deposits, reserve_key, value, deposit_index);
        lemma_with_balance_reads(deposits, reserve_key, value, deposit_index, reserve_key, 0);
    }
    assert forall|value: u64|
        one_entry_per_reserve(#[trigger] with_balance(borrows, reserve_key, value, borrow_index))
            && has_entry(with_balance(borrows, reserve_key, value, borrow_index), reserve_key)
            && recorded_index(with_balance(borrows, reserve_key, value, borrow_index), reserve_key, 0)
            == borrow_index by {
        lemma_with_balance_keeps_one_entry(borrows, reserve_key, value, borrow_index);
        lemma_with_balance_reads(borrows, reserve_key, value, borrow_index, reserve_key, 0);
    }
}

} // verus!
