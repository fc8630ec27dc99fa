//! The records that the engine keeps: the market, its reserves, and each
//! user's account with its deposit and borrow entries.

use vstd::prelude::*;
use crate::key::AccountKey;

verus! {

/// How rewards of a stake are handed out.
#[derive(Clone, Copy, Debug, PartialEq, Eq)]
pub enum RewardMode {
    RecurringInvestment,
    RealTimeBatch,
}

/// How often a recurring investment is made.
#[derive(Clone, Copy, Debug, PartialEq, Eq)]
pub enum RecurringFrequency {
    Daily,
    Weekly,
    Monthly,
}

/// Whether reinvested rewards start a new reward period.
#[derive(Clone, Copy, Debug, PartialEq, Eq)]
pub enum CompoundStrategy {
    Simple,
    Compound,
}

/// How often batched rewards are paid out.
#[derive(Clone, Copy, Debug, PartialEq, Eq)]
pub enum BatchFrequency {
    Instant,
    Hourly,
    Daily,
}

/// The tier of a user, which scales rewards and penalties.
#[derive(Clone, Copy, Debug, PartialEq, Eq)]
pub enum UserTier {
    Diamond,
    Gold,
    Silver,
    Bronze,
}

/// What a user asked for the rewards of a stake.
#[derive(Clone, Copy, Debug, PartialEq, Eq)]
pub struct RewardPreferences {
    pub mode: RewardMode,
    /// Share of each reward that goes back into the stake, in percent.
    pub reinvestment_percentage: u8,
    pub compound_strategy: CompoundStrategy,
    /// Accumulated rewards from which a batch is paid out.
    pub batch_size: u64,
    pub batch_frequency: BatchFrequency,
    pub payout_threshold: u64,
    pub auto_compound: bool,
    pub lock_duration_days: u32,
}

/// The parameters of the interest rate curve, all in basis points.
#[derive(Clone, Copy, Debug, PartialEq, Eq)]
pub struct InterestRateModel {
    pub base_rate: u16,
    pub multiplier: u16,
    pub jump_multiplier: u16,
    pub kink: u16,
}

/// The market: totals over all reserves, counted as if all assets were one.
#[derive(Clone, Copy, Debug, PartialEq, Eq)]
pub struct Market {
    pub authority: AccountKey,
    pub bump: u8,
    pub total_deposits: u64,
    pub total_borrows: u64,
    /// The protocol's cut of interest, in basis points.
    pub reserve_factor: u16,
    pub interest_rate_model: InterestRateModel,
}

/// One asset pool.
#[derive(Clone, Copy, Debug, PartialEq, Eq)]
pub struct Reserve {
    pub market: AccountKey,
    pub mint: AccountKey,
    /// Loan-to-value ratio, in basis points.
    pub ltv_ratio: u16,
    /// Liquidation threshold, in basis points.
    pub liquidation_threshold: u16,
    /// Bonus paid to a liquidator, in basis points of what is liquidated.
    pub liquidation_penalty: u16,
    pub bump: u8,
    pub total_deposits: u64,
    pub total_borrows: u64,
    /// What one unit deposited at the start is worth now, scaled.
    pub deposit_index: u64,
    /// What one unit borrowed at the start is owed now, scaled.
    pub borrow_index: u64,
    /// The slot of the last operation that stamped the reserve.
    pub last_update: u64,
}

/// A user's deposit in one reserve: the balance as of `deposit_index`.
#[derive(Clone, Copy, Debug, PartialEq, Eq)]
pub struct UserDeposit {
    pub reserve: AccountKey,
    pub amount: u64,
    pub deposit_index: u64,
}

/// A user's borrow from one reserve: the debt as of `borrow_index`.
#[derive(Clone, Copy, Debug, PartialEq, Eq)]
pub struct UserBorrow {
    pub reserve: AccountKey,
    pub amount: u64,
    pub borrow_index: u64,
}

/// A user's account: the deposit and borrow entries, one per reserve, in the
/// order in which they were opened, and the state of the user's stake.
#[derive(Clone, Debug, PartialEq, Eq)]
pub struct UserAccount {
    pub user: AccountKey,
    pub deposits: Vec<UserDeposit>,
    pub borrows: Vec<UserBorrow>,
    pub reward_preferences: Option<RewardPreferences>,
    pub stake_amount: u64,
    pub stake_start_time: i64,
    pub lock_duration_days: u32,
    pub intended_end_time: i64,
    pub accumulated_rewards: u64,
    pub last_payout_time: i64,
    pub total_rewards_received: u64,
    pub tier: UserTier,
    pub jupsol_amount: u64,
    pub kamino_multiply_position: Option<AccountKey>,
    pub immediate_liquidity_available: bool,
}

/// The account that collects the penalties of early exits.
#[derive(Clone, Copy, Debug, PartialEq, Eq)]
pub struct PermanentAccount {
    pub authority: AccountKey,
    pub total_penalties: u64,
    pub last_distribution: i64,
}

/// A ledger entry as the contracts see it: the reserve's address as bytes,
/// the balance, and the index at which the balance was written down.
pub ghost struct Position {
    pub reserve: Seq<u8>,
    pub amount: u64,
    pub index: u64,
}

/// A user's ledger as the contracts see it.
pub ghost struct Ledger {
    pub deposits: Seq<Position>,
    pub borrows: Seq<Position>,
}

impl View for UserDeposit {
    type V = Position;

    open spec fn view(&self) -> Position {
        Position { reserve: self.reserve@, amount: self.amount, index: self.deposit_index }
    }
}

impl View for UserBorrow {
    type V = Position;

    open spec fn view(&self) -> Position {
        Position { reserve: self.reserve@, amount: self.amount, index: self.borrow_index }
    }
}

/// The deposit entries as positions, in their order.
pub open spec fn deposit_positions(entries: Seq<UserDeposit>) -> Seq<Position> {
    Seq::new(entries.len(), |i: int| entries[i]@)
}

/// The borrow entries as positions, in their order.
pub open spec fn borrow_positions(entries: Seq<UserBorrow>) -> Seq<Position> {
    Seq::new(entries.len(), |i: int| entries[i]@)
}

impl View for UserAccount {
    type V = Ledger;

    open spec fn view(&self) -> Ledger {
        Ledger {
            deposits: deposit_positions(self.deposits@),
            borrows: borrow_positions(self.borrows@),
        }
    }
}

impl UserAccount {
    /// Whether `self` is `before` with, at most, other deposit entries.
    pub open spec fn same_but_deposits(self, before: UserAccount) -> bool {
        self == (UserAccount { deposits: self.deposits, ..before })
    }

    /// Whether `self` is `before` with, at most, other borrow entries.
    pub open spec fn same_but_borrows(self, before: UserAccount) -> bool {
        self == (UserAccount { borrows: self.borrows, ..before })
    }

    /// A new account for `user`, with no entries and no stake.
    pub fn new(user: AccountKey, tier: UserTier) -> (account: UserAccount)
        ensures
            account@.deposits == Seq::<Position>::empty(),
            account@.borrows == Seq::<Position>::empty(),
            account.user == user,
            account.tier == tier,
            account.reward_preferences is None,
            account.kamino_multiply_position is None,
            account.stake_amount == 0,
            account.stake_start_time == 0,
            account.lock_duration_days == 0,
            account.intended_end_time == 0,
            account.accumulated_rewards == 0,
            account.last_payout_time == 0,
            account.total_rewards_received == 0,
            account.jupsol_amount == 0,
            !account.immediate_liquidity_available,
    {
        let account = UserAccount {
            user,
            deposits: Vec::new(),
            borrows: Vec::new(),
            reward_preferences: None,
            stake_amount: 0,
            stake_start_time: 0,
            lock_duration_days: 0,
            intended_end_time: 0,
            accumulated_rewards: 0,
            last_payout_time: 0,
            total_rewards_received: 0,
            tier,
            jupsol_amount: 0,
            kamino_multiply_position: None,
            immediate_liquidity_available: false,
        };
        proof {
            assert(account@.deposits =~= Seq::<Position>::empty());
            assert(account@.borrows =~= Seq::<Position>::empty());
        }
        account
    }
}

} // verus!
