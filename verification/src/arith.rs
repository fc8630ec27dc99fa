//! Arithmetic on amounts that fails instead of wrapping.

use vstd::prelude::*;
use crate::error::LendingError;

verus! {

/// One hundred percent in basis points.
pub const BPS_DENOMINATOR: u64 = 10_000;

/// `a + b`, or the overflow error where the sum leaves the 64-bit range.
pub fn try_add(a: u64, b: u64) -> (sum: Result<u64, LendingError>)
    ensures
        a + b <= u64::MAX ==> sum == Ok::<u64, LendingError>((a + b) as u64),
        a + b > u64::MAX ==> sum == Err::<u64, LendingError>(LendingError::ArithmeticOverflow),
{
    match a.checked_add(b) {
        Some(sum) => Ok(sum),
        None => Err(LendingError::ArithmeticOverflow),
    }
}

/// `a - b`, or the overflow error where `b` exceeds `a`.
pub fn try_sub(a: u64, b: u64) -> (difference: Result<u64, LendingError>)
    ensures
        b <= a ==> difference == Ok::<u64, LendingError>((a - b) as u64),
        b > a ==> difference == Err::<u64, LendingError>(LendingError::ArithmeticOverflow),
{
    match a.checked_sub(b) {
        Some(difference) => Ok(difference),
        None => Err(LendingError::ArithmeticOverflow),
    }
}

/// `a * b`, or the overflow error where the product leaves the 64-bit range.
pub fn try_mul(a: u64, b: u64) -> (product: Result<u64, LendingError>)
    ensures
        a * b <= u64::MAX ==> product == Ok::<u64, LendingError>((a * b) as u64),
        a * b > u64::MAX ==> product == Err::<u64, LendingError>(LendingError::ArithmeticOverflow),
{
    match a.checked_mul(b) {
        Some(product) => Ok(product),
        None => Err(LendingError::ArithmeticOverflow),
    }
}

/// The share of `amount` that `bps` basis points stand for, rounded down.
pub open spec fn bps_share(amount: u64, bps: u16) -> int {
    (amount as int * bps as int) / (BPS_DENOMINATOR as int)
}

/// The share of `amount` that `bps` basis points stand for, rounded down, or
/// the overflow error where that share leaves the 64-bit range. The product is
/// taken in 128 bits.
pub fn try_bps_share(amount: u64, bps: u16) -> (share: Result<u64, LendingError>)
    ensures
        bps_share(amount, bps) <= u64::MAX ==> share == Ok::<u64, LendingError>(
            bps_share(amount, bps) as u64,
        ),
        bps_share(amount, bps) > u64::MAX ==> share == Err::<u64, LendingError>(
            LendingError::ArithmeticOverflow,
        ),
{
    proof {
        assert(amount as int * bps as int <= 0xFFFF_FFFF_FFFF_FFFF * 0xFFFF) by (nonlinear_arith)
            requires
                0 <= amount <= 0xFFFF_FFFF_FFFF_FFFF,
                0 <= bps <= 0xFFFF,
        ;
    }
    let product: u128 = (amount as u128) * (bps as u128);
    let share: u128 = product / (BPS_DENOMINATOR as u128);
    if share > u64::MAX as u128 {
        Err(LendingError::ArithmeticOverflow)
    } else {
        Ok(share as u64)
    }
}

} // verus!
