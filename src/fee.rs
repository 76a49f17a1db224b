//! Splitting a donation into the fee and the part that reaches the tip jar.
use vstd::prelude::*;

use crate::error::CustomError;

verus! {

/// Share of every donation, in percent, that goes to the fee recipient.
pub const FEE_PERCENT: u64 = 10;

/// The fee on `amount`: the product is taken before the division, which rounds down.
pub open spec fn fee_of(amount: int) -> int {
    amount * FEE_PERCENT / 100
}

/// What reaches the tip jar once the fee is taken.
pub open spec fn net_of(amount: int) -> int {
    amount - fee_of(amount)
}

/// Whether the fee computation on `amount` stays within 64 bits.
pub open spec fn fee_fits(amount: int) -> bool {
    amount * FEE_PERCENT <= u64::MAX
}

/// Splits `amount` into `(fee, net)`; fails when `amount * FEE_PERCENT` overflows.
pub fn split_fee(amount: u64) -> (r: Result<(u64, u64), CustomError>)
    ensures
        r is Ok <==> fee_fits(amount as int),
        r matches Ok((fee, net)) ==> fee == fee_of(amount as int) && net == net_of(amount as int)
            && fee + net == amount,
        r matches Err(e) ==> e == CustomError::CalculationOverflow,
{
    let scaled = match amount.checked_mul(FEE_PERCENT) {
        Some(v) => v,
        None => return Err(CustomError::CalculationOverflow),
    };
    let fee = scaled / 100;
    assert(fee <= amount) by (nonlinear_arith)
        requires
            fee == scaled / 100,
            scaled == amount * 10,
    ;
    match amount.checked_sub(fee) {
        Some(net) => Ok((fee, net)),
        None => Err(CustomError::CalculationOverflow),
    }
}

/// The fee and the net part of a donation add up to the donation, the fee is
/// `floor(amount * FEE_PERCENT / 100)`, and below 10 the fee is zero.
pub proof fn lemma_fee_split(amount: u64)
    requires
        fee_fits(amount as int),
    ensures
        fee_of(amount as int) + net_of(amount as int) == amount,
        fee_of(amount as int) == (amount as int * 10) / 100,
        0 <= fee_of(amount as int) <= amount,
        amount < 10 ==> fee_of(amount as int) == 0,
{
    assert(0 <= (amount as int * 10) / 100 <= amount) by (nonlinear_arith);
    assert(amount < 10 ==> (amount as int * 10) / 100 == 0) by (nonlinear_arith);
}

} // verus!
