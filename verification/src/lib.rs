//! Accounting core of a pooled lending market.
//!
//! The crate keeps the books of a set of asset pools ("reserves"): it accrues
//! interest lazily through scaled indices, bounds what a user may borrow by
//! what the user has deposited, and settles repayments, withdrawals,
//! liquidations and flash loans. Every operation either commits all of its
//! effects or leaves every record as it found it.
//!
//! Moving assets between custodial accounts and reading the clock are the
//! host's business: operations take the current slot or timestamp as a plain
//! value and hand back the amounts that the host has to move.

pub mod engine;
pub mod error;
pub mod arith;
pub mod index;
pub mod key;
pub mod laws;
pub mod ledger;
pub mod risk;
pub mod staking;
pub mod state;
