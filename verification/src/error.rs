//! The ways in which an operation can be refused.

use vstd::prelude::*;

verus! {

/// Why an operation was refused. Whatever the reason, the operation has
/// changed nothing.
#[derive(Clone, Copy, Debug, PartialEq, Eq, Structural)]
pub enum LendingError {
    /// A borrow or a withdrawal would leave the user with more debt than the
    /// deposits support.
    InsufficientCollateral,
    /// The reserve has less idle liquidity than the borrow asks for.
    InsufficientLiquidity,
    /// The user has no borrow entry for the reserve.
    NoBorrowFound,
    /// The user has no deposit entry for the reserve.
    NoDepositFound,
    /// A withdrawal asks for more than the accrued deposit balance.
    InsufficientBalance,
    /// The position to liquidate is still within its borrow limit.
    PositionNotLiquidatable,
    /// A balance, an index or a total would leave the 64-bit range.
    ArithmeticOverflow,
    /// The host reported that an asset transfer did not go through.
    TransferFailed,
}

/// The sentence that describes an error.
pub open spec fn error_text(error: LendingError) -> Seq<char> {
    match error {
        LendingError::InsufficientCollateral => "Insufficient collateral for borrow"@,
        LendingError::InsufficientLiquidity => "Insufficient liquidity in reserve"@,
        LendingError::NoBorrowFound => "No borrow found for this reserve"@,
        LendingError::NoDepositFound => "No deposit found for this reserve"@,
        LendingError::InsufficientBalance => "Insufficient balance for withdrawal"@,
        LendingError::PositionNotLiquidatable => "Position is not liquidatable"@,
        LendingError::ArithmeticOverflow => "Arithmetic overflow"@,
        LendingError::TransferFailed => "Transfer failed"@,
    }
}

impl LendingError {
    /// The sentence that describes the error.
    pub fn message(&self) -> (text: &'static str)
        ensures
            text@ == error_text(*self),
    {
        match self {
            LendingError::InsufficientCollateral => "Insufficient collateral for borrow",
            LendingError::InsufficientLiquidity => "Insufficient liquidity in reserve",
            LendingError::NoBorrowFound => "No borrow found for this reserve",
            LendingError::NoDepositFound => "No deposit found for this reserve",
            LendingError::InsufficientBalance => "Insufficient balance for withdrawal",
            LendingError::PositionNotLiquidatable => "Position is not liquidatable",
            LendingError::ArithmeticOverflow => "Arithmetic overflow",
            LendingError::TransferFailed => "Transfer failed",
        }
    }
}

} // verus!
