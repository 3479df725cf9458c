//! The fee policy: the platform's cut of an accepted offer, floored at a
//! configured minimum.

use vstd::prelude::*;

use crate::model::DealError;

verus! {

/// Divisor of the fee rate: the rate is expressed in basis points scaled by
/// 100.
pub const FEE_RATE_DIVISOR: u64 = 10_000;

/// The fee owed on `offer` at rate `percentage`: the integer-floored
/// percentage cut, but never less than `fee_min`.
pub open spec fn fee_spec(offer: int, percentage: int, fee_min: int) -> int {
    let raw = percentage * offer / (FEE_RATE_DIVISOR as int);
    if raw < fee_min {
        fee_min
    } else {
        raw
    }
}

/// Whether the fee computation stays inside the 64-bit range. When it does
/// not, the transition fails with an arithmetic error instead of wrapping.
pub open spec fn fee_computable(offer: int, percentage: int) -> bool {
    percentage * offer <= u64::MAX
}

/// The amount escrowed for an accepted offer: the offer plus its fee.
pub open spec fn total_due(offer: int, percentage: int, fee_min: int) -> int {
    offer + fee_spec(offer, percentage, fee_min)
}

/// Fee policy: `max(floor(percentage * offer / 10_000), fee_min)`, failing
/// instead of wrapping when the product leaves the 64-bit range. Pure and
/// deterministic; the floor applies whatever the settlement currency is.
pub fn client_fee(offer: u64, percentage: u64, fee_min: u64) -> (r: Result<u64, DealError>)
    ensures
        r is Ok <==> fee_computable(offer as int, percentage as int),
        r matches Ok(f) ==> f == fee_spec(offer as int, percentage as int, fee_min as int),
        r is Err ==> r == Err::<u64, DealError>(DealError::ArithmeticOverflow),
{
    match percentage.checked_mul(offer) {
        Some(product) => {
            let raw: u64 = product / FEE_RATE_DIVISOR;
            if raw < fee_min {
                Ok(fee_min)
            } else {
                Ok(raw)
            }
        },
        None => Err(DealError::ArithmeticOverflow),
    }
}

} // verus!
