//! A user's position ledger: one deposit entry and one borrow entry per
//! reserve, each brought up to date lazily when it is touched.
//!
//! The contracts speak of a ledger through its positions (see
//! [`crate::state::Position`]). An entry is found by scanning for the first
//! one that names the reserve. Entries are never removed: one whose amount has
//! reached zero stays as an inert record.

use vstd::prelude::*;
use crate::arith::{try_add, try_sub};
use crate::error::LendingError;
use crate::index::{accrual_in_range, accrue, accrued_amount};
use crate::key::AccountKey;
use crate::state::{Position, UserAccount, UserBorrow, UserDeposit};

verus! {

/// The place of the first entry at or after `start` that names `reserve`, or
/// the number of entries where there is none.
pub open spec fn position_from(entries: Seq<Position>, reserve: Seq<u8>, start: int) -> int
    decreases entries.len() - start,
{
    if start < 0 || start >= entries.len() {
        entries.len() as int
    } else if entries[start].reserve == reserve {
        start
    } else {
        position_from(entries, reserve, start + 1)
    }
}

/// The place of the entry for `reserve`: the first that names it, or the
/// number of entries where none does.
pub open spec fn position_of(entries: Seq<Position>, reserve: Seq<u8>) -> int {
    position_from(entries, reserve, 0)
}

/// Whether the ledger side holds an entry for `reserve`.
pub open spec fn has_entry(entries: Seq<Position>, reserve: Seq<u8>) -> bool {
    position_of(entries, reserve) < entries.len()
}

/// The amount written down for `reserve`; zero where there is no entry.
pub open spec fn recorded_amount(entries: Seq<Position>, reserve: Seq<u8>) -> u64 {
    if has_entry(entries, reserve) {
        entries[position_of(entries, reserve)].amount
    } else {
        0
    }
}

/// The index at which the amount for `reserve` was written down; `current`
/// where there is no entry, as for an entry opened just now.
pub open spec fn recorded_index(entries: Seq<Position>, reserve: Seq<u8>, current: u64) -> u64 {
    if has_entry(entries, reserve) {
        entries[position_of(entries, reserve)].index
    } else {
        current
    }
}

/// Whether the balance for `reserve` can be brought up to date against the
/// index `current` without leaving the 64-bit range.
pub open spec fn balance_in_range(entries: Seq<Position>, reserve: Seq<u8>, current: u64) -> bool {
    accrual_in_range(
        recorded_amount(entries, reserve),
        recorded_index(entries, reserve, current),
        current,
    )
}

/// The balance for `reserve` brought up to date against the index `current`.
pub open spec fn balance_at(entries: Seq<Position>, reserve: Seq<u8>, current: u64) -> int {
    accrued_amount(
        recorded_amount(entries, reserve),
        recorded_index(entries, reserve, current),
        current,
    )
}

/// The entries with the balance for `reserve` set to `amount` as of `index`:
/// the existing entry is overwritten in place, a missing one is appended.
pub open spec fn with_balance(
    entries: Seq<Position>,
    reserve: Seq<u8>,
    amount: u64,
    index: u64,
) -> Seq<Position> {
    let position = Position { reserve, amount, index };
    if has_entry(entries, reserve) {
        entries.update(position_of(entries, reserve), position)
    } else {
        entries.push(position)
    }
}

/// The sum of the amounts of all entries.
pub open spec fn total_amount(entries: Seq<Position>) -> nat
    decreases entries.len(),
{
    if entries.len() == 0 {
        0
    } else {
        total_amount(entries.drop_last()) + entries.last().amount as nat
    }
}

/// No reserve has two entries.
pub open spec fn one_entry_per_reserve(entries: Seq<Position>) -> bool {
    forall|i: int, j: int|
        0 <= i < j < entries.len() ==> (#[trigger] entries[i]).reserve != (
        #[trigger] entries[j]).reserve
}

/// What the scan finds: the result lies between `start` and the number of
/// entries, names `reserve` where it is a place, and nothing before it does.
pub proof fn lemma_position_from(entries: Seq<Position>, reserve: Seq<u8>, start: int)
    requires
        0 <= start <= entries.len(),
    ensures
        start <= position_from(entries, reserve, start) <= entries.len(),
        position_from(entries, reserve, start) < entries.len() ==> entries[position_from(
            entries,
            reserve,
            start,
        )].reserve == reserve,
        forall|j: int|
            start <= j < position_from(entries, reserve, start) ==> (#[trigger] entries[j]).reserve
                != reserve,
    decreases entries.len() - start,
{
    if start < entries.len() && entries[start].reserve != reserve {
        lemma_position_from(entries, reserve, start + 1);
    }
}

/// The scan is decided by the reserves that the entries name: any place that
/// names `reserve` with none before it is the place of the entry.
pub proof fn lemma_position_is_first(entries: Seq<Position>, reserve: Seq<u8>, place: int)
    requires
        0 <= place < entries.len(),
        entries[place].reserve == reserve,
        forall|j: int| 0 <= j < place ==> (#[trigger] entries[j]).reserve != reserve,
    ensures
        position_of(entries, reserve) == place,
{
    lemma_position_from(entries, reserve, 0);
}

/// Appending an entry adds its amount to the total.
pub proof fn lemma_total_push(entries: Seq<Position>, position: Position)
    ensures
        total_amount(entries.push(position)) == total_amount(entries) + position.amount,
{
    assert(entries.push(position).drop_last() =~= entries);
}

/// Overwriting an entry changes the total by the difference of the amounts.
pub proof fn lemma_total_update(entries: Seq<Position>, place: int, position: Position)
    requires
        0 <= place < entries.len(),
    ensures
        total_amount(entries.update(place, position)) == total_amount(entries)
            - entries[place].amount + position.amount,
        total_amount(entries) >= entries[place].amount,
    decreases entries.len(),
{
    let updated = entries.update(place, position);
    if place == entries.len() - 1 {
        assert(updated.drop_last() =~= entries.drop_last());
    } else {
        lemma_total_update(entries.drop_last(), place, position);
        assert(updated.drop_last() =~= entries.drop_last().update(place, position));
    }
}

/// Setting the balance for a reserve changes the total by the difference
/// between the new amount and the amount written down before.
pub proof fn lemma_total_with_balance(
    entries: Seq<Position>,
    reserve: Seq<u8>,
    amount: u64,
    index: u64,
)
    ensures
        total_amount(with_balance(entries, reserve, amount, index)) == total_amount(entries)
            - recorded_amount(entries, reserve) + amount,
        total_amount(entries) >= recorded_amount(entries, reserve),
{
    lemma_position_from(entries, reserve, 0);
    let position = Position { reserve, amount, index };
    if has_entry(entries, reserve) {
        lemma_total_update(entries, position_of(entries, reserve), position);
    } else {
        lemma_total_push(entries, position);
    }
}

/// The total of the first entries never exceeds the total of all.
pub proof fn lemma_total_of_prefix(entries: Seq<Position>, count: int)
    requires
        0 <= count <= entries.len(),
    ensures
        total_amount(entries.take(count)) <= total_amount(entries),
    decreases entries.len(),
{
    if count == entries.len() {
        assert(entries.take(count) =~= entries);
    } else {
        lemma_total_of_prefix(entries.drop_last(), count);
        assert(entries.drop_last().take(count) =~= entries.take(count));
    }
}

/// After the balance for a reserve was set, the entry for that reserve holds
/// the amount and the index that were set, and every other reserve's entry is
/// as before.
pub proof fn lemma_with_balance_reads(
    entries: Seq<Position>,
    reserve: Seq<u8>,
    amount: u64,
    index: u64,
    other: Seq<u8>,
    current: u64,
)
    ensures
        has_entry(with_balance(entries, reserve, amount, index), reserve),
        position_of(with_balance(entries, reserve, amount, index), reserve) == position_of(
            entries,
            reserve,
        ),
        recorded_amount(with_balance(entries, reserve, amount, index), reserve) == amount,
        recorded_index(with_balance(entries, reserve, amount, index), reserve, current) == index,
        other != reserve ==> has_entry(with_balance(entries, reserve, amount, index), other)
            == has_entry(entries, other),
        other != reserve ==> recorded_amount(with_balance(entries, reserve, amount, index), other)
            == recorded_amount(entries, other),
        other != reserve ==> recorded_index(
            with_balance(entries, reserve, amount, index),
            other,
            current,
        ) == recorded_index(entries, other, current),
{
    let after = with_balance(entries, reserve, amount, index);
    let place = position_of(entries, reserve);
    lemma_position_from(entries, reserve, 0);
    lemma_position_from(entries, other, 0);
    assert(after[place].reserve == reserve);
    assert forall|j: int| 0 <= j < place implies (#[trigger] after[j]).reserve != reserve by {
        assert(after[j] == entries[j]);
    }
    lemma_position_is_first(after, reserve, place);
    if other != reserve {
        let there = position_of(entries, other);
        if there < entries.len() {
            assert(after[there] == entries[there]);
            assert forall|j: int| 0 <= j < there implies (#[trigger] after[j]).reserve
                != other by {
                if j != place {
                    assert(after[j] == entries[j]);
                }
            }
            lemma_position_is_first(after, other, there);
        } else {
            lemma_position_from(after, other, 0);
            let found = position_of(after, other);
            if found < after.len() {
                if found < entries.len() && found != place {
                    assert(after[found] == entries[found]);
                    assert(entries[found].reserve != other);
                }
                assert(false);
            }
        }
    }
}

/// Setting the balance for a reserve twice leaves what the second setting
/// alone would have left.
pub proof fn lemma_with_balance_twice(
    entries: Seq<Position>,
    reserve: Seq<u8>,
    first_amount: u64,
    first_index: u64,
    amount: u64,
    index: u64,
)
    ensures
        with_balance(with_balance(entries, reserve, first_amount, first_index), reserve, amount, index)
            == with_balance(entries, reserve, amount, index),
{
    lemma_with_balance_reads(entries, reserve, first_amount, first_index, reserve, index);
    lemma_position_from(entries, reserve, 0);
    assert(with_balance(
        with_balance(entries, reserve, first_amount, first_index),
        reserve,
        amount,
        index,
    ) =~= with_balance(entries, reserve, amount, index));
}

/// Setting the balance of an existing entry to what is written down already
/// changes nothing.
pub proof fn lemma_with_balance_as_recorded(entries: Seq<Position>, reserve: Seq<u8>, current: u64)
    requires
        has_entry(entries, reserve),
    ensures
        with_balance(
            entries,
            reserve,
            recorded_amount(entries, reserve),
            recorded_index(entries, reserve, current),
        ) == entries,
{
    lemma_position_from(entries, reserve, 0);
    assert(with_balance(
        entries,
        reserve,
        recorded_amount(entries, reserve),
        recorded_index(entries, reserve, current),
    ) =~= entries);
}

/// Setting a balance keeps the ledger side at one entry per reserve.
pub proof fn lemma_with_balance_keeps_one_entry(
    entries: Seq<Position>,
    reserve: Seq<u8>,
    amount: u64,
    index: u64,
)
    requires
        one_entry_per_reserve(entries),
    ensures
        one_entry_per_reserve(with_balance(entries, reserve, amount, index)),
{
    let after = with_balance(entries, reserve, amount, index);
    let place = position_of(entries, reserve);
    lemma_position_from(entries, reserve, 0);
    assert forall|i: int, j: int| 0 <= i < j < after.len() implies (#[trigger] after[i]).reserve
        != (#[trigger] after[j]).reserve by {
        if place < entries.len() {
            assert(after[i].reserve == entries[i].reserve);
            assert(after[j].reserve == entries[j].reserve);
        } else if j < entries.len() {
            assert(after[i] == entries[i]);
            assert(after[j] == entries[j]);
        } else {
            assert(after[i] == entries[i]);
            assert(entries[i].reserve != reserve);
        }
    }
}

/// The balance for `reserve` brought up to date against `current`, as an
/// operation reads it: `missing` where there is no entry, the overflow error
/// where the balance leaves the 64-bit range.
pub open spec fn accrued_balance(
    entries: Seq<Position>,
    reserve: Seq<u8>,
    current: u64,
    missing: LendingError,
) -> Result<u64, LendingError> {
    if !has_entry(entries, reserve) {
        Err(missing)
    } else if !balance_in_range(entries, reserve, current) {
        Err(LendingError::ArithmeticOverflow)
    } else {
        Ok(balance_at(entries, reserve, current) as u64)
    }
}

/// The entries after `delta` was added for `reserve`: the balance, zero where
/// there was no entry, is brought up to date against `current`, `delta` is
/// added, and the sum is written down as of `current`. The overflow error
/// where the balance or the sum leaves the 64-bit range.
pub open spec fn upserted(
    entries: Seq<Position>,
    reserve: Seq<u8>,
    current: u64,
    delta: u64,
) -> Result<Seq<Position>, LendingError> {
    if balance_in_range(entries, reserve, current) && balance_at(entries, reserve, current) + delta
        <= u64::MAX {
        Ok(
            with_balance(
                entries,
                reserve,
                (balance_at(entries, reserve, current) + delta) as u64,
                current,
            ),
        )
    } else {
        Err(LendingError::ArithmeticOverflow)
    }
}

/// The entries after `amount` was taken from the balance for `reserve`, which
/// is first brought up to date against `current`. `missing` where there is no
/// entry; the overflow error where the balance leaves the 64-bit range or is
/// less than `amount`.
pub open spec fn reduced(
    entries: Seq<Position>,
    reserve: Seq<u8>,
    current: u64,
    amount: u64,
    missing: LendingError,
) -> Result<Seq<Position>, LendingError> {
    match accrued_balance(entries, reserve, current, missing) {
        Err(e) => Err(e),
        Ok(balance) => if amount <= balance {
            Ok(with_balance(entries, reserve, (balance - amount) as u64, current))
        } else {
            Err(LendingError::ArithmeticOverflow)
        },
    }
}

impl UserAccount {
    /// The place of the deposit entry for `reserve`, if there is one.
    pub fn deposit_position(&self, reserve: &AccountKey) -> (found: Option<usize>)
        ensures
            found is Some <==> has_entry(self@.deposits, reserve@),
            found is Some ==> found->Some_0 == position_of(self@.deposits, reserve@),
    {
        let ghost entries = self@.deposits;
        let mut i: usize = 0;
        while i < self.deposits.len()
            invariant
                i <= self.deposits.len(),
                entries == self@.deposits,
                position_of(entries, reserve@) == position_from(entries, reserve@, i as int),
            decreases self.deposits.len() - i,
        {
            if self.deposits[i].reserve.matches(reserve) {
                return Some(i);
            }
            i += 1;
        }
        None
    }

    /// The place of the borrow entry for `reserve`, if there is one.
    pub fn borrow_position(&self, reserve: &AccountKey) -> (found: Option<usize>)
        ensures
            found is Some <==> has_entry(self@.borrows, reserve@),
            found is Some ==> found->Some_0 == position_of(self@.borrows, reserve@),
    {
        let ghost entries = self@.borrows;
        let mut i: usize = 0;
        while i < self.borrows.len()
            invariant
                i <= self.borrows.len(),
                entries == self@.borrows,
                position_of(entries, reserve@) == position_from(entries, reserve@, i as int),
            decreases self.borrows.len() - i,
        {
            if self.borrows[i].reserve.matches(reserve) {
                return Some(i);
            }
            i += 1;
        }
        None
    }

    /// The deposit balance for `reserve` as of the index `current_index`,
    /// without writing it down.
    pub fn accrued_deposit(&self, reserve: &AccountKey, current_index: u64) -> (balance: Result<
        u64,
        LendingError,
    >)
        ensures
            balance == accrued_balance(
                self@.deposits,
                reserve@,
                current_index,
                LendingError::NoDepositFound,
            ),
    {
        match self.deposit_position(reserve) {
            None => Err(LendingError::NoDepositFound),
            Some(i) => accrue(self.deposits[i].amount, self.deposits[i].deposit_index, current_index),
        }
    }

    /// The borrow balance for `reserve` as of the index `current_index`,
    /// without writing it down.
    pub fn accrued_borrow(&self, reserve: &AccountKey, current_index: u64) -> (balance: Result<
        u64,
        LendingError,
    >)
        ensures
            balance == accrued_balance(
                self@.borrows,
                reserve@,
                current_index,
                LendingError::NoBorrowFound,
            ),
    {
        match self.borrow_position(reserve) {
            None => Err(LendingError::NoBorrowFound),
            Some(i) => accrue(self.borrows[i].amount, self.borrows[i].borrow_index, current_index),
        }
    }

    /// Writes `entry` down in the place that the scan for its reserve found:
    /// over the existing entry, or at the end.
    pub(crate) fn store_deposit(&mut self, found: Option<usize>, entry: UserDeposit)
        requires
            found is Some <==> has_entry(old(self)@.deposits, entry.reserve@),
            found is Some ==> found->Some_0 == position_of(old(self)@.deposits, entry.reserve@),
        ensures
            final(self)@.deposits == with_balance(
                old(self)@.deposits,
                entry.reserve@,
                entry.amount,
                entry.deposit_index,
            ),
            final(self).same_but_deposits(*old(self)),
    {
        match found {
            Some(i) => {
                self.deposits.set(i, entry);
            },
            None => {
                self.deposits.push(entry);
            },
        }
        proof {
            assert(self@.deposits =~= with_balance(
                old(self)@.deposits,
                entry.reserve@,
                entry.amount,
                entry.deposit_index,
            ));
        }
    }

    /// Writes `entry` down in the place that the scan for its reserve found:
    /// over the existing entry, or at the end.
    pub(crate) fn store_borrow(&mut self, found: Option<usize>, entry: UserBorrow)
        requires
            found is Some <==> has_entry(old(self)@.borrows, entry.reserve@),
            found is Some ==> found->Some_0 == position_of(old(self)@.borrows, entry.reserve@),
        ensures
            final(self)@.borrows == with_balance(
                old(self)@.borrows,
                entry.reserve@,
                entry.amount,
                entry.borrow_index,
            ),
            final(self).same_but_borrows(*old(self)),
    {
        match found {
            Some(i) => {
                self.borrows.set(i, entry);
            },
            None => {
                self.borrows.push(entry);
            },
        }
        proof {
            assert(self@.borrows =~= with_balance(
                old(self)@.borrows,
                entry.reserve@,
                entry.amount,
                entry.borrow_index,
            ));
        }
    }

    /// Brings the deposit entry for `reserve` up to date against
    /// `current_index`, writes the balance down as of that index, and returns
    /// it.
    pub fn get_and_accrue_deposit(&mut self, reserve: &AccountKey, current_index: u64) -> (balance:
        Result<u64, LendingError>)
        ensures
            balance == accrued_balance(
                old(self)@.deposits,
                reserve@,
                current_index,
                LendingError::NoDepositFound,
            ),
            balance is Ok ==> final(self)@.deposits == with_balance(
                old(self)@.deposits,
                reserve@,
                balance->Ok_0,
                current_index,
            ) && final(self).same_but_deposits(*old(self)),
            balance is Err ==> *final(self) == *old(self),
            balance is Ok ==> balance->Ok_0 >= recorded_amount(old(self)@.deposits, reserve@),
    {
        let found = self.deposit_position(reserve);
        match found {
            None => Err(LendingError::NoDepositFound),
            Some(i) => {
                match accrue(self.deposits[i].amount, self.deposits[i].deposit_index, current_index) {
                    Err(e) => Err(e),
                    Ok(amount) => {
                        self.store_deposit(
                            found,
                            UserDeposit { reserve: *reserve, amount, deposit_index: current_index },
                        );
                        Ok(amount)
                    },
                }
            },
        }
    }

    /// Brings the borrow entry for `reserve` up to date against
    /// `current_index`, writes the balance down as of that index, and returns
    /// it.
    pub fn get_and_accrue_borrow(&mut self, reserve: &AccountKey, current_index: u64) -> (balance:
        Result<u64, LendingError>)
        ensures
            balance == accrued_balance(
                old(self)@.borrows,
                reserve@,
                current_index,
                LendingError::NoBorrowFound,
            ),
            balance is Ok ==> final(self)@.borrows == with_balance(
                old(self)@.borrows,
                reserve@,
                balance->Ok_0,
                current_index,
            ) && final(self).same_but_borrows(*old(self)),
            balance is Err ==> *final(self) == *old(self),
            balance is Ok ==> balance->Ok_0 >= recorded_amount(old(self)@.borrows, reserve@),
    {
        let found = self.borrow_position(reserve);
        match found {
            None => Err(LendingError::NoBorrowFound),
            Some(i) => {
                match accrue(self.borrows[i].amount, self.borrows[i].borrow_index, current_index) {
                    Err(e) => Err(e),
                    Ok(amount) => {
                        self.store_borrow(
                            found,
                            UserBorrow { reserve: *reserve, amount, borrow_index: current_index },
                        );
                        Ok(amount)
                    },
                }
            },
        }
    }

    /// Adds `delta` to the deposit for `reserve`, opening an entry where there
    /// is none: the balance is brought up to date against `current_index`
    /// first, and the sum is written down as of that index.
    pub fn upsert_deposit(&mut self, reserve: &AccountKey, current_index: u64, delta: u64) -> (done:
        Result<(), LendingError>)
        ensures
            match upserted(old(self)@.deposits, reserve@, current_index, delta) {
                Ok(entries) => done is Ok && final(self)@.deposits == entries && final(self).same_but_deposits(*old(self)),
                Err(e) => done == Err::<(), LendingError>(e) && *final(self) == *old(self),
            },
    {
        let found = self.deposit_position(reserve);
        let (amount, snapshot) = match found {
            Some(i) => (self.deposits[i].amount, self.deposits[i].deposit_index),
            None => (0, current_index),
        };
        let balance = match accrue(amount, snapshot, current_index) {
            Ok(balance) => balance,
            Err(e) => { return Err(e); },
        };
        let sum = match try_add(balance, delta) {
            Ok(sum) => sum,
            Err(e) => { return Err(e); },
        };
        self.store_deposit(
            found,
            UserDeposit { reserve: *reserve, amount: sum, deposit_index: current_index },
        );
        Ok(())
    }

    /// Adds `delta` to the borrow for `reserve`, opening an entry where there
    /// is none: the balance is brought up to date against `current_index`
    /// first, and the sum is written down as of that index.
    pub fn upsert_borrow(&mut self, reserve: &AccountKey, current_index: u64, delta: u64) -> (done:
        Result<(), LendingError>)
        ensures
            match upserted(old(self)@.borrows, reserve@, current_index, delta) {
                Ok(entries) => done is Ok && final(self)@.borrows == entries && final(self).same_but_borrows(*old(self)),
                Err(e) => done == Err::<(), LendingError>(e) && *final(self) == *old(self),
            },
    {
        let found = self.borrow_position(reserve);
        let (amount, snapshot) = match found {
            Some(i) => (self.borrows[i].amount, self.borrows[i].borrow_index),
            None => (0, current_index),
        };
        let balance = match accrue(amount, snapshot, current_index) {
            Ok(balance) => balance,
            Err(e) => { return Err(e); },
        };
        let sum = match try_add(balance, delta) {
            Ok(sum) => sum,
            Err(e) => { return Err(e); },
        };
        self.store_borrow(
            found,
            UserBorrow { reserve: *reserve, amount: sum, borrow_index: current_index },
        );
        Ok(())
    }

    /// Takes `amount` from the deposit for `reserve`, after bringing the
    /// balance up to date against `current_index`. Callers that mean to take
    /// at most the balance clamp `amount` first.
    pub fn reduce_deposit(&mut self, reserve: &AccountKey, current_index: u64, amount: u64) -> (done:
        Result<(), LendingError>)
        ensures
            match reduced(
                old(self)@.deposits,
                reserve@,
                current_index,
                amount,
                LendingError::NoDepositFound,
            ) {
                Ok(entries) => done is Ok && final(self)@.deposits == entries && final(self).same_but_deposits(*old(self)),
                Err(e) => done == Err::<(), LendingError>(e) && *final(self) == *old(self),
            },
    {
        let found = self.deposit_position(reserve);
        let balance = match self.accrued_deposit(reserve, current_index) {
            Ok(balance) => balance,
            Err(e) => { return Err(e); },
        };
        let rest = match try_sub(balance, amount) {
            Ok(rest) => rest,
            Err(e) => { return Err(e); },
        };
        self.store_deposit(
            found,
            UserDeposit { reserve: *reserve, amount: rest, deposit_index: current_index },
        );
        Ok(())
    }

    /// Takes `amount` from the borrow for `reserve`, after bringing the
    /// balance up to date against `current_index`. Callers that mean to take
    /// at most the balance clamp `amount` first.
    pub fn reduce_borrow(&mut self, reserve: &AccountKey, current_index: u64, amount: u64) -> (done:
        Result<(), LendingError>)
        ensures
            match reduced(
                old(self)@.borrows,
                reserve@,
                current_index,
                amount,
                LendingError::NoBorrowFound,
            ) {
                Ok(entries) => done is Ok && final(self)@.borrows == entries && final(self).same_but_borrows(*old(self)),
                Err(e) => done == Err::<(), LendingError>(e) && *final(self) == *old(self),
            },
    {
        let found = self.borrow_position(reserve);
        let balance = match self.accrued_borrow(reserve, current_index) {
            Ok(balance) => balance,
            Err(e) => { return Err(e); },
        };
        let rest = match try_sub(balance, amount) {
            Ok(rest) => rest,
            Err(e) => { return Err(e); },
        };
        self.store_borrow(
            found,
            UserBorrow { reserve: *reserve, amount: rest, borrow_index: current_index },
        );
        Ok(())
    }
}

} // verus!
