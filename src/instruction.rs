//! The operations a link offers, with their arguments.
use vstd::prelude::*;
use crate::state::DistributionType;

verus! {

/// Arguments that create a link.
#[derive(Debug, Clone, PartialEq, Eq)]
pub struct InitCashArgs {
    pub amount: u64,
    pub fee_bps: u16,
    pub network_fee: u64,
    pub base_fee_to_redeem: u64,
    pub rent_fee_to_redeem: u64,
    pub cash_bump: u8,
    pub distribution_type: DistributionType,
    pub max_num_redemptions: u16,
    /// Floor of a random payout; required for Random distribution.
    pub min_amount: Option<u64>,
    pub cash_reference: String,
    /// Whether each redemption needs the pass key's signature.
    pub is_locked: bool,
    pub fingerprint_enabled: bool,
    /// Days after creation at which the link stops paying out.
    pub expires_in_days: Option<u32>,
    pub cancel_after_redemption: bool,
    pub close_requires_no_redemptions: bool,
}

/// Arguments of one redemption.
#[derive(Debug, Clone, PartialEq, Eq)]
pub struct InitCashRedemptionArgs {
    pub cash_bump: u8,
    pub cash_reference: String,
    /// Share of the platform fee, in basis points, paid to a referrer.
    pub referrer_fee_bps: Option<u16>,
    /// Share of the platform fee, in basis points, paid back to the sender.
    pub referee_fee_bps: Option<u16>,
    /// Share of the amount, in parts per million, under Weighted distribution.
    pub weight_ppm: Option<u32>,
    pub rate_usd: Option<String>,
    pub redemption_bump: u8,
    /// The redeemer's dedup token, where the link asks for one.
    pub fingerprint: Option<String>,
}

/// Arguments that cancel a link.
#[derive(Debug, Clone, PartialEq, Eq)]
pub struct CancelCashRedemptionArgs {
    pub cash_bump: u8,
    pub cash_reference: String,
}

/// An operation on a link.
#[derive(Debug, Clone, PartialEq, Eq)]
pub enum CashInstruction {
    InitCash(InitCashArgs),
    Redeem(InitCashRedemptionArgs),
    Cancel(CancelCashRedemptionArgs),
    Close,
    Expire(CancelCashRedemptionArgs),
}

} // verus!
