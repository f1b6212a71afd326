use vstd::prelude::*;
use crate::state::ErrorCode;

verus! {

/// The fixed deposit that backs each message, in minor units.
pub const DEPOSIT_AMOUNT: u64 = 1_000_000;

/// The largest fee rate, in percent.
pub const MAX_FEE_RATE: u8 = 100;

/// The fee taken from `deposit` at `rate` percent, rounded down.
pub open spec fn fee_of(deposit: int, rate: int) -> int {
    deposit * rate / 100
}

pub open spec fn valid_fee_rate(rate: u8) -> bool {
    rate <= 100
}

/// Refuses a fee rate above 100 percent.
pub fn check_fee_rate(rate: u8) -> (r: Result<(), ErrorCode>)
    ensures
        r == (if valid_fee_rate(rate) { Ok(()) } else { Err(ErrorCode::InvalidFeeRate) }),
{
    if rate <= MAX_FEE_RATE {
        Ok(())
    } else {
        Err(ErrorCode::InvalidFeeRate)
    }
}

/// Splits `deposit` into the fee at `rate` percent and the net remainder.
/// Fails with `ArithmeticOverflow` where the product leaves `u64` or the fee
/// exceeds the deposit.
pub fn split(deposit: u64, rate: u8) -> (r: Result<(u64, u64), ErrorCode>)
    ensures
        deposit * rate <= u64::MAX && fee_of(deposit as int, rate as int) <= deposit ==> r == Ok::<
            (u64, u64),
            ErrorCode,
        >((fee_of(deposit as int, rate as int) as u64, (deposit - fee_of(deposit as int, rate as int)) as u64)),
        !(deposit * rate <= u64::MAX && fee_of(deposit as int, rate as int) <= deposit) ==> r == Err::<
            (u64, u64),
            ErrorCode,
        >(ErrorCode::ArithmeticOverflow),
{
    let product = match deposit.checked_mul(rate as u64) {
        Some(p) => p,
        None => return Err(ErrorCode::ArithmeticOverflow),
    };
    let fee = product / 100;
    let net = match deposit.checked_sub(fee) {
        Some(n) => n,
        None => return Err(ErrorCode::ArithmeticOverflow),
    };
    Ok((fee, net))
}

/// Adds a collected fee to the running total.
pub fn record_fee(total: u64, fee: u64) -> (r: Result<u64, ErrorCode>)
    ensures
        total + fee <= u64::MAX ==> r == Ok::<u64, ErrorCode>((total + fee) as u64),
        total + fee > u64::MAX ==> r == Err::<u64, ErrorCode>(ErrorCode::ArithmeticOverflow),
{
    match total.checked_add(fee) {
        Some(t) => Ok(t),
        None => Err(ErrorCode::ArithmeticOverflow),
    }
}

/// Takes a withdrawn amount off the running total.
pub fn debit_fee(total: u64, amount: u64) -> (r: Result<u64, ErrorCode>)
    ensures
        amount <= total ==> r == Ok::<u64, ErrorCode>((total - amount) as u64),
        amount > total ==> r == Err::<u64, ErrorCode>(ErrorCode::InsufficientFunds),
{
    if amount > total {
        Err(ErrorCode::InsufficientFunds)
    } else {
        Ok(total - amount)
    }
}

/// For the fixed deposit the split always succeeds at a valid rate, and the
/// fee and the net part add up to the deposit.
pub proof fn split_of_deposit_is_exact(rate: u8)
    requires
        valid_fee_rate(rate),
    ensures
        DEPOSIT_AMOUNT * rate <= u64::MAX,
        0 <= fee_of(DEPOSIT_AMOUNT as int, rate as int) <= DEPOSIT_AMOUNT,
{
    assert(DEPOSIT_AMOUNT * rate <= 100_000_000) by (nonlinear_arith)
        requires
            rate <= 100,
            DEPOSIT_AMOUNT == 1_000_000,
    ;
    assert(fee_of(DEPOSIT_AMOUNT as int, rate as int) <= DEPOSIT_AMOUNT) by (nonlinear_arith)
        requires
            rate <= 100,
            DEPOSIT_AMOUNT == 1_000_000,
    ;
    assert(0 <= fee_of(DEPOSIT_AMOUNT as int, rate as int)) by (nonlinear_arith)
        requires
            rate <= 100,
            DEPOSIT_AMOUNT == 1_000_000,
    ;
}

} // verus!
