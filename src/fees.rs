//! Basis-point and fixed-fee arithmetic. Every operation is checked: an
//! overflow is reported, never wrapped.
use vstd::prelude::*;
use crate::error::CashError;

verus! {

/// Denominator of a basis-point rate.
pub const BPS_DENOMINATOR: u64 = 10000;

/// `amount * bps / 10000`, rounded down.
pub open spec fn fee_from_bps(amount: int, bps: int) -> int {
    amount * bps / 10000
}

/// The fee at `fee_basis_points` of `amount`; fails when the product
/// does not fit in 64 bits.
pub fn calculate_fee(amount: u64, fee_basis_points: u64) -> (r: Result<u64, CashError>)
    ensures
        r is Ok <==> amount * fee_basis_points <= u64::MAX,
        r matches Ok(fee) ==> fee == fee_from_bps(amount as int, fee_basis_points as int),
        r matches Err(e) ==> e == CashError::Overflow,
{
    match amount.checked_mul(fee_basis_points) {
        Some(product) => Ok(product / BPS_DENOMINATOR),
        None => Err(CashError::Overflow),
    }
}

/// `amount` plus its fee at `fee_basis_points`.
pub fn calculate_amount_with_fee(amount: u64, fee_basis_points: u64) -> (r: Result<u64, CashError>)
    ensures
        r is Ok <==> amount * fee_basis_points <= u64::MAX && amount + fee_from_bps(
            amount as int,
            fee_basis_points as int,
        ) <= u64::MAX,
        r matches Ok(total) ==> total == amount + fee_from_bps(amount as int, fee_basis_points as int),
        r matches Err(e) ==> e == CashError::Overflow,
{
    let fee = calculate_fee(amount, fee_basis_points)?;
    match amount.checked_add(fee) {
        Some(total) => Ok(total),
        None => Err(CashError::Overflow),
    }
}

/// The platform fee a link is charged at creation: its basis-point fee
/// plus the one-off network fee.
pub open spec fn platform_fee_total(amount: int, fee_bps: int, network_fee: int) -> int {
    fee_from_bps(amount, fee_bps) + network_fee
}

/// The fixed fees reserved for every redemption a link allows.
pub open spec fn redemption_fee_budget(base_fee: int, rent_fee: int, max_num_redemptions: int) -> int {
    (base_fee + rent_fee) * max_num_redemptions
}

/// `fee_from_bps(amount, fee_bps) + network_fee`, checked.
pub fn total_platform_fee(amount: u64, fee_bps: u16, network_fee: u64) -> (r: Result<u64, CashError>)
    ensures
        r is Ok <==> amount * fee_bps <= u64::MAX && platform_fee_total(
            amount as int,
            fee_bps as int,
            network_fee as int,
        ) <= u64::MAX,
        r matches Ok(fee) ==> fee == platform_fee_total(amount as int, fee_bps as int, network_fee as int),
        r matches Err(e) ==> e == CashError::Overflow,
{
    let bps_fee = calculate_fee(amount, fee_bps as u64)?;
    match bps_fee.checked_add(network_fee) {
        Some(total) => Ok(total),
        None => Err(CashError::Overflow),
    }
}

/// `(base_fee + rent_fee) * max_num_redemptions`, checked.
pub fn total_redemption_fee_budget(base_fee: u64, rent_fee: u64, max_num_redemptions: u16) -> (r: Result<u64, CashError>)
    ensures
        r is Ok <==> base_fee + rent_fee <= u64::MAX && redemption_fee_budget(
            base_fee as int,
            rent_fee as int,
            max_num_redemptions as int,
        ) <= u64::MAX,
        r matches Ok(fee) ==> fee == redemption_fee_budget(base_fee as int, rent_fee as int, max_num_redemptions as int),
        r matches Err(e) ==> e == CashError::Overflow,
{
    match base_fee.checked_add(rent_fee) {
        Some(per_redemption) => match per_redemption.checked_mul(max_num_redemptions as u64) {
            Some(total) => Ok(total),
            None => Err(CashError::Overflow),
        },
        None => Err(CashError::Overflow),
    }
}

} // verus!
