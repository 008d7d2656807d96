use vstd::prelude::*;

verus! {

/// Every way an operation on a link can fail.
#[derive(Debug, Clone, Copy, PartialEq, Eq, Structural)]
pub enum CashError {
    InvalidOwner,
    InvalidMint,
    InvalidInstruction,
    NotRentExempt,
    ExpectedAmountMismatch,
    InvalidAuthorityId,
    AmountOverflow,
    AccountAlreadyRedeemed,
    AccountAlreadyCanceled,
    FeeOverflow,
    AccountNotRedeemedOrInitialized,
    AccountNotRedeemedOrCanceled,
    AccountNotCanceled,
    AccountNotInitialized,
    MathOverflow,
    InvalidDepositKey,
    InvalidWithdrawKey,
    InvalidEscrowKey,
    InvalidVaultOwner,
    InvalidVaultTokenOwner,
    InvalidVaultToken,
    InvalidSrcTokenOwner,
    InvalidDstTokenOwner,
    InvalidFeeTokenOwner,
    InvalidDepositTokenOwner,
    InvalidWithdrawTokenOwner,
    AccountAlreadyClosed,
    AccountInvalidState,
    InsufficientSettlementFunds,
    InvalidReference,
    Overflow,
    InvalidAmount,
    InvalidNumberOfRedemptions,
    MinAmountNotSet,
    MinAmountMustBeLessThanAmount,
    InvalidPassKey,
    InvalidSlotHashProgram,
    MaxRedemptionsReached,
    NoRemainingAmount,
    WeightNotProvided,
    InvalidWeight,
    TotalWeightExceeded,
    InvalidReferralFees,
    FingerprintNotProvided,
    FingerprintAlreadyUsed,
    CashlinkExpired,
    CashlinkNotExpired,
    AccountAlreadyInitialized,
}

/// The numeric code of each error, in declaration order.
pub open spec fn error_code(e: CashError) -> u32 {
    match e {
        CashError::InvalidOwner => 0,
        CashError::InvalidMint => 1,
        CashError::InvalidInstruction => 2,
        CashError::NotRentExempt => 3,
        CashError::ExpectedAmountMismatch => 4,
        CashError::InvalidAuthorityId => 5,
        CashError::AmountOverflow => 6,
        CashError::AccountAlreadyRedeemed => 7,
        CashError::AccountAlreadyCanceled => 8,
        CashError::FeeOverflow => 9,
        CashError::AccountNotRedeemedOrInitialized => 10,
        CashError::AccountNotRedeemedOrCanceled => 11,
        CashError::AccountNotCanceled => 12,
        CashError::AccountNotInitialized => 13,
        CashError::MathOverflow => 14,
        CashError::InvalidDepositKey => 15,
        CashError::InvalidWithdrawKey => 16,
        CashError::InvalidEscrowKey => 17,
        CashError::InvalidVaultOwner => 18,
        CashError::InvalidVaultTokenOwner => 19,
        CashError::InvalidVaultToken => 20,
        CashError::InvalidSrcTokenOwner => 21,
        CashError::InvalidDstTokenOwner => 22,
        CashError::InvalidFeeTokenOwner => 23,
        CashError::InvalidDepositTokenOwner => 24,
        CashError::InvalidWithdrawTokenOwner => 25,
        CashError::AccountAlreadyClosed => 26,
        CashError::AccountInvalidState => 27,
        CashError::InsufficientSettlementFunds => 28,
        CashError::InvalidReference => 29,
        CashError::Overflow => 30,
        CashError::InvalidAmount => 31,
        CashError::InvalidNumberOfRedemptions => 32,
        CashError::MinAmountNotSet => 33,
        CashError::MinAmountMustBeLessThanAmount => 34,
        CashError::InvalidPassKey => 35,
        CashError::InvalidSlotHashProgram => 36,
        CashError::MaxRedemptionsReached => 37,
        CashError::NoRemainingAmount => 38,
        CashError::WeightNotProvided => 39,
        CashError::InvalidWeight => 40,
        CashError::TotalWeightExceeded => 41,
        CashError::InvalidReferralFees => 42,
        CashError::FingerprintNotProvided => 43,
        CashError::FingerprintAlreadyUsed => 44,
        CashError::CashlinkExpired => 45,
        CashError::CashlinkNotExpired => 46,
        CashError::AccountAlreadyInitialized => 47,
    }
}

impl CashError {
    /// The code under which a host reports this error to its caller.
    pub fn code(&self) -> (r: u32)
        ensures
            r == error_code(*self),
    {
        match self {
            CashError::InvalidOwner => 0,
            CashError::InvalidMint => 1,
            CashError::InvalidInstruction => 2,
            CashError::NotRentExempt => 3,
            CashError::ExpectedAmountMismatch => 4,
            CashError::InvalidAuthorityId => 5,
            CashError::AmountOverflow => 6,
            CashError::AccountAlreadyRedeemed => 7,
            CashError::AccountAlreadyCanceled => 8,
            CashError::FeeOverflow => 9,
            CashError::AccountNotRedeemedOrInitialized => 10,
            CashError::AccountNotRedeemedOrCanceled => 11,
            CashError::AccountNotCanceled => 12,
            CashError::AccountNotInitialized => 13,
            CashError::MathOverflow => 14,
            CashError::InvalidDepositKey => 15,
            CashError::InvalidWithdrawKey => 16,
            CashError::InvalidEscrowKey => 17,
            CashError::InvalidVaultOwner => 18,
            CashError::InvalidVaultTokenOwner => 19,
            CashError::InvalidVaultToken => 20,
            CashError::InvalidSrcTokenOwner => 21,
            CashError::InvalidDstTokenOwner => 22,
            CashError::InvalidFeeTokenOwner => 23,
            CashError::InvalidDepositTokenOwner => 24,
            CashError::InvalidWithdrawTokenOwner => 25,
            CashError::AccountAlreadyClosed => 26,
            CashError::AccountInvalidState => 27,
            CashError::InsufficientSettlementFunds => 28,
            CashError::InvalidReference => 29,
            CashError::Overflow => 30,
            CashError::InvalidAmount => 31,
            CashError::InvalidNumberOfRedemptions => 32,
            CashError::MinAmountNotSet => 33,
            CashError::MinAmountMustBeLessThanAmount => 34,
            CashError::InvalidPassKey => 35,
            CashError::InvalidSlotHashProgram => 36,
            CashError::MaxRedemptionsReached => 37,
            CashError::NoRemainingAmount => 38,
            CashError::WeightNotProvided => 39,
            CashError::InvalidWeight => 40,
            CashError::TotalWeightExceeded => 41,
            CashError::InvalidReferralFees => 42,
            CashError::FingerprintNotProvided => 43,
            CashError::FingerprintAlreadyUsed => 44,
            CashError::CashlinkExpired => 45,
            CashError::CashlinkNotExpired => 46,
            CashError::AccountAlreadyInitialized => 47,
        }
    }
}

} // verus!
