//! Scaled interest indices and the accrual of a balance against them.
//!
//! An index is a fixed-point multiplier with nine decimal digits: it says what
//! one unit put into a reserve at its start is worth now. A balance written
//! down at one index value is brought up to date by scaling it with the ratio
//! of the current index to the recorded one, rounding down.

use vstd::prelude::*;
use vstd::arithmetic::div_mod::{lemma_div_is_ordered, lemma_div_multiples_vanish};
use vstd::arithmetic::mul::{lemma_mul_inequality, lemma_mul_is_commutative};
use crate::error::LendingError;

verus! {

/// The index value that stands for the multiplier 1.0.
pub const INDEX_SCALE: u64 = 1_000_000_000;

/// What a balance of `amount`, written down at index `snapshot`, is worth at
/// index `current`: `amount * current / snapshot` rounded down where the index
/// has grown, and `amount` itself where it has not.
pub open spec fn accrued_amount(amount: u64, snapshot: u64, current: u64) -> int {
    if current > snapshot && snapshot > 0 {
        (amount as int * current as int) / (snapshot as int)
    } else {
        amount as int
    }
}

/// Whether bringing the balance up to date yields a 64-bit amount. It does not
/// where the index has grown from a recorded value of zero, or where the
/// scaled balance leaves the 64-bit range.
pub open spec fn accrual_in_range(amount: u64, snapshot: u64, current: u64) -> bool {
    current <= snapshot || (snapshot > 0 && accrued_amount(amount, snapshot, current)
        <= u64::MAX)
}

/// The interest that accrual adds to the balance.
pub open spec fn accrued_interest(amount: u64, snapshot: u64, current: u64) -> int {
    accrued_amount(amount, snapshot, current) - amount
}

/// Brings a balance written down at index `snapshot` up to date against the
/// index `current`.
///
/// The product is taken in 128 bits, so only the final amount can leave the
/// 64-bit range, and then the call fails.
pub fn accrue(amount: u64, snapshot: u64, current: u64) -> (balance: Result<u64, LendingError>)
    ensures
        accrual_in_range(amount, snapshot, current) ==> balance == Ok::<u64, LendingError>(
            accrued_amount(amount, snapshot, current) as u64,
        ),
        !accrual_in_range(amount, snapshot, current) ==> balance == Err::<u64, LendingError>(
            LendingError::ArithmeticOverflow,
        ),
        balance is Ok ==> balance->Ok_0 >= amount,
{
    if current <= snapshot {
        return Ok(amount);
    }
    if snapshot == 0 {
        return Err(LendingError::ArithmeticOverflow);
    }
    proof {
        assert(amount as int * current as int <= 0xFFFF_FFFF_FFFF_FFFF * 0xFFFF_FFFF_FFFF_FFFF)
            by (nonlinear_arith)
            requires
                0 <= amount <= 0xFFFF_FFFF_FFFF_FFFF,
                0 <= current <= 0xFFFF_FFFF_FFFF_FFFF,
        ;
        lemma_accrual_never_shrinks(amount, snapshot, current);
    }
    let product: u128 = (amount as u128) * (current as u128);
    let grown: u128 = product / (snapshot as u128);
    if grown > u64::MAX as u128 {
        Err(LendingError::ArithmeticOverflow)
    } else {
        Ok(grown as u64)
    }
}

/// Accrual never takes anything away: whatever the two index values, the
/// balance brought up to date is at least the balance written down.
pub proof fn lemma_accrual_never_shrinks(amount: u64, snapshot: u64, current: u64)
    ensures
        accrued_amount(amount, snapshot, current) >= amount,
        accrued_interest(amount, snapshot, current) >= 0,
{
    if current > snapshot && snapshot > 0 {
        let a = amount as int;
        let s = snapshot as int;
        let c = current as int;
        lemma_mul_inequality(s, c, a);
        lemma_mul_is_commutative(a, s);
        lemma_mul_is_commutative(a, c);
        lemma_div_is_ordered(a * s, a * c, s);
        lemma_div_multiples_vanish(a, s);
        lemma_mul_is_commutative(s, a);
    }
}

/// Against an index that has not moved since the balance was written down,
/// accrual changes nothing and cannot fail.
pub proof fn law_accrual_at_fixed_index(amount: u64, index: u64)
    ensures
        accrual_in_range(amount, index, index),
        accrued_amount(amount, index, index) == amount,
{
}

/// A larger current index never gives a smaller balance.
pub proof fn law_accrual_grows_with_index(amount: u64, snapshot: u64, lower: u64, higher: u64)
    requires
        lower <= higher,
    ensures
        accrued_amount(amount, snapshot, lower) <= accrued_amount(amount, snapshot, higher),
{
    lemma_accrual_never_shrinks(amount, snapshot, higher);
    if lower > snapshot && snapshot > 0 {
        let a = amount as int;
        let s = snapshot as int;
        lemma_mul_inequality(lower as int, higher as int, a);
        lemma_mul_is_commutative(a, lower as int);
        lemma_mul_is_commutative(a, higher as int);
        lemma_div_is_ordered(a * lower, a * higher, s);
    }
}

/// The balance after it was brought up to date against each of `indices` in
/// turn, each time written down as of the index just seen. `None` where one
/// of the accruals leaves the 64-bit range.
pub open spec fn accrued_through(amount: u64, snapshot: u64, indices: Seq<u64>) -> Option<u64>
    decreases indices.len(),
{
    if indices.len() == 0 {
        Some(amount)
    } else if !accrual_in_range(amount, snapshot, indices[0]) {
        None
    } else {
        accrued_through(
            accrued_amount(amount, snapshot, indices[0]) as u64,
            indices[0],
            indices.drop_first(),
        )
    }
}

/// Accrual is monotone: however the index moves, a balance that is brought up
/// to date again and again never gets smaller.
pub proof fn law_accrual_is_monotone(amount: u64, snapshot: u64, indices: Seq<u64>)
    ensures
        accrued_through(amount, snapshot, indices) is Some ==> accrued_through(
            amount,
            snapshot,
            indices,
        )->Some_0 >= amount,
    decreases indices.len(),
{
    if indices.len() > 0 && accrual_in_range(amount, snapshot, indices[0]) {
        lemma_accrual_never_shrinks(amount, snapshot, indices[0]);
        law_accrual_is_monotone(
            accrued_amount(amount, snapshot, indices[0]) as u64,
            indices[0],
            indices.drop_first(),
        );
    }
}

/// Accrual is idempotent at a fixed index: bringing a balance up to date
/// against `index` and then against `index` once more gives what the first
/// accrual gave.
pub proof fn law_accrual_is_idempotent(amount: u64, snapshot: u64, index: u64)
    requires
        accrual_in_range(amount, snapshot, index),
    ensures
        accrued_through(amount, snapshot, seq![index, index]) == accrued_through(
            amount,
            snapshot,
            seq![index],
        ),
        accrued_through(amount, snapshot, seq![index]) == Some(
            accrued_amount(amount, snapshot, index) as u64,
        ),
{
    let once = accrued_amount(amount, snapshot, index) as u64;
    let one = seq![index];
    let two = seq![index, index];
    assert(one.drop_first() =~= Seq::<u64>::empty());
    assert(two.drop_first() =~= one);
    reveal_with_fuel(accrued_through, 3);
    assert(accrued_through(once, index, Seq::<u64>::empty()) == Some(once));
    assert(accrued_through(once, index, one) == Some(once));
}

} // verus!
