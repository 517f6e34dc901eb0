//! The basis-point fee taken on each tip.
use vstd::prelude::*;
use crate::state::TipError;

verus! {

/// Basis points in one whole.
pub const BPS_DENOMINATOR: u128 = 10000;

/// Highest fee rate the configuration accepts, in basis points.
pub const MAX_FEE_BPS: u16 = 100;

/// The fee on `amount` at `fee_bps` basis points, rounded up to a whole unit.
pub open spec fn fee_of(amount: int, fee_bps: int) -> int {
    if fee_bps == 0 {
        0
    } else {
        (amount * fee_bps + 9999) / 10000
    }
}

/// Whether the fee on `amount` fits the settlement type.
pub open spec fn fee_fits(amount: int, fee_bps: int) -> bool {
    fee_of(amount, fee_bps) <= u64::MAX
}

/// The fee on `amount` at `fee_bps` basis points, rounded up so that a
/// nonzero rate never charges nothing on a positive amount.
pub fn calculate_fee(amount: u64, fee_bps: u16) -> (r: Result<u64, TipError>)
    ensures
        r is Ok <==> fee_fits(amount as int, fee_bps as int),
        r matches Ok(f) ==> f == fee_of(amount as int, fee_bps as int),
        r matches Err(e) ==> e == TipError::FeeCalculationOverflow,
{
    if fee_bps == 0 {
        return Ok(0);
    }
    let a: u128 = amount as u128;
    let b: u128 = fee_bps as u128;
    assert(a * b <= u64::MAX as u128 * u16::MAX as u128) by (nonlinear_arith)
        requires a <= u64::MAX, b <= u16::MAX;
    let numerator: u128 = a * b;
    let mut fee: u128 = numerator / BPS_DENOMINATOR;
    if numerator % BPS_DENOMINATOR != 0 {
        fee = fee + 1;
    }
    assert(fee == fee_of(amount as int, fee_bps as int)) by {
        let n = numerator as int;
        assert(n == (amount as int) * (fee_bps as int));
        assert(n % 10000 == 0 ==> (n + 9999) / 10000 == n / 10000) by (nonlinear_arith)
            requires n >= 0;
        assert(n % 10000 != 0 ==> (n + 9999) / 10000 == n / 10000 + 1) by (nonlinear_arith)
            requires n >= 0;
    }
    if fee > u64::MAX as u128 {
        return Err(TipError::FeeCalculationOverflow);
    }
    Ok(fee as u64)
}

} // verus!
