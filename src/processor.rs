//! The operations on a link, each a single all-or-nothing transition from
//! the stored record and the call's inputs to the new record and the value
//! movements the host must carry out. A failed call changes nothing.
use vstd::prelude::*;
use crate::error::CashError;
use crate::fees::{calculate_fee, fee_from_bps, platform_fee_total, redemption_fee_budget, total_platform_fee, total_redemption_fee_budget};
use crate::instruction::{CashInstruction, InitCashArgs, InitCashRedemptionArgs};
use crate::distribution::{amount_to_redeem, distribution_outcome};
use crate::state::{AccountType, Address, Cash, CashState, DistributionType, even_share, fully_redeemed, locked_total};

verus! {

/// Seconds in a day, for expiry given in days.
pub const SECONDS_PER_DAY: u64 = 86400;

/// What the host knows of a call besides its arguments.
#[derive(Debug, Clone, Copy)]
pub struct Context {
    /// The signer presented as the link's authority.
    pub signer: Address,
    /// The sender funding a new link.
    pub owner: Address,
    /// The value kind of a new link.
    pub mint: Address,
    /// The pass key that signed the call, if any.
    pub pass_key: Option<Address>,
    /// Current time, in seconds.
    pub now: u64,
    /// Seed of a random payout.
    pub random_value: u64,
    /// Balance of the link's escrow.
    pub vault_balance: u64,
    /// Whether the marker of the redeemer's fingerprint already exists.
    pub fingerprint_taken: bool,
}

/// Why a new link cannot be created, checked in this order.
pub open spec fn init_error(args: InitCashArgs, ctx: Context) -> Option<CashError> {
    let platform = platform_fee_total(
        args.amount as int,
        args.fee_bps as int,
        args.network_fee as int,
    );
    let budget = redemption_fee_budget(
        args.base_fee_to_redeem as int,
        args.rent_fee_to_redeem as int,
        args.max_num_redemptions as int,
    );
    if args.amount == 0 {
        Some(CashError::InvalidAmount)
    } else if args.max_num_redemptions == 0 {
        Some(CashError::InvalidNumberOfRedemptions)
    } else if args.amount * args.fee_bps > u64::MAX || platform > u64::MAX {
        Some(CashError::Overflow)
    } else if args.base_fee_to_redeem + args.rent_fee_to_redeem > u64::MAX || budget > u64::MAX {
        Some(CashError::Overflow)
    } else if args.distribution_type == DistributionType::Fixed && args.amount as int
        % args.max_num_redemptions as int != 0 {
        Some(CashError::InvalidAmount)
    } else if args.distribution_type == DistributionType::Random && args.min_amount is None {
        Some(CashError::MinAmountNotSet)
    } else if args.min_amount matches Some(m) && m > args.amount {
        Some(CashError::MinAmountMustBeLessThanAmount)
    } else if args.amount + platform + budget > u64::MAX {
        Some(CashError::Overflow)
    } else if args.is_locked && ctx.pass_key is None {
        Some(CashError::InvalidPassKey)
    } else if args.expires_in_days matches Some(d) && ctx.now + d * SECONDS_PER_DAY > u64::MAX {
        Some(CashError::Overflow)
    } else {
        None
    }
}

/// The link that a successful creation stores.
pub open spec fn created_link(args: InitCashArgs, ctx: Context) -> Cash {
    Cash {
        account_type: AccountType::Cash,
        authority: ctx.signer,
        state: CashState::Initialized,
        amount: args.amount,
        fee_bps: args.fee_bps,
        network_fee: args.network_fee,
        base_fee_to_redeem: args.base_fee_to_redeem,
        rent_fee_to_redeem: args.rent_fee_to_redeem,
        remaining_amount: args.amount,
        distribution_type: args.distribution_type,
        owner: ctx.owner,
        mint: ctx.mint,
        total_redemptions: 0,
        max_num_redemptions: args.max_num_redemptions,
        min_amount: match args.min_amount {
            Some(m) => m,
            None => 1,
        },
        fingerprint_enabled: args.fingerprint_enabled,
        pass_key: if args.is_locked {
            ctx.pass_key
        } else {
            None
        },
        total_weight_ppm: 0,
        created_at: ctx.now,
        expires_at: match args.expires_in_days {
            Some(d) => Some((ctx.now + d * SECONDS_PER_DAY) as u64),
            None => None,
        },
        canceled_at: None,
        last_redeemed_at: None,
        cancel_after_redemption: args.cancel_after_redemption,
        close_requires_no_redemptions: args.close_requires_no_redemptions,
    }
}

/// Validates a new link's configuration and returns the link with the
/// value the sender must lock for it: the amount, the platform fee and the
/// fee budget of every redemption.
pub fn process_init(args: &InitCashArgs, ctx: &Context) -> (r: Result<(Cash, u64), CashError>)
    ensures
        r is Err <==> init_error(*args, *ctx) is Some,
        r matches Err(e) ==> init_error(*args, *ctx) == Some(e),
        r matches Ok((link, locked)) ==> link == created_link(*args, *ctx) && locked == locked_total(
            link,
        ) && link.wf(),
{
    if args.amount == 0 {
        return Err(CashError::InvalidAmount);
    }
    if args.max_num_redemptions == 0 {
        return Err(CashError::InvalidNumberOfRedemptions);
    }
    let platform_fee = total_platform_fee(args.amount, args.fee_bps, args.network_fee)?;
    let redemption_budget = total_redemption_fee_budget(
        args.base_fee_to_redeem,
        args.rent_fee_to_redeem,
        args.max_num_redemptions,
    )?;
    if args.distribution_type == DistributionType::Fixed && args.amount
        % args.max_num_redemptions as u64 != 0 {
        return Err(CashError::InvalidAmount);
    }
    if args.distribution_type == DistributionType::Random && args.min_amount.is_none() {
        return Err(CashError::MinAmountNotSet);
    }
    let min_amount = match args.min_amount {
        Some(m) => {
            if m > args.amount {
                return Err(CashError::MinAmountMustBeLessThanAmount);
            }
            m
        },
        None => 1,
    };
    let locked = match args.amount.checked_add(platform_fee) {
        Some(v) => match v.checked_add(redemption_budget) {
            Some(total) => total,
            None => return Err(CashError::Overflow),
        },
        None => return Err(CashError::Overflow),
    };
    if args.is_locked && ctx.pass_key.is_none() {
        return Err(CashError::InvalidPassKey);
    }
    let expires_at = match args.expires_in_days {
        Some(days) => {
            assert(days * SECONDS_PER_DAY <= u64::MAX) by (nonlinear_arith)
                requires
                    days <= u32::MAX,
            ;
            match ctx.now.checked_add(days as u64 * SECONDS_PER_DAY) {
                Some(t) => Some(t),
                None => return Err(CashError::Overflow),
            }
        },
        None => None,
    };
    let link = Cash {
        account_type: AccountType::Cash,
        authority: ctx.signer,
        state: CashState::Initialized,
        amount: args.amount,
        fee_bps: args.fee_bps,
        network_fee: args.network_fee,
        base_fee_to_redeem: args.base_fee_to_redeem,
        rent_fee_to_redeem: args.rent_fee_to_redeem,
        remaining_amount: args.amount,
        distribution_type: args.distribution_type,
        owner: ctx.owner,
        mint: ctx.mint,
        total_redemptions: 0,
        max_num_redemptions: args.max_num_redemptions,
        min_amount,
        fingerprint_enabled: args.fingerprint_enabled,
        pass_key: if args.is_locked {
            ctx.pass_key
        } else {
            None
        },
        total_weight_ppm: 0,
        created_at: ctx.now,
        expires_at,
        canceled_at: None,
        last_redeemed_at: None,
        cancel_after_redemption: args.cancel_after_redemption,
        close_requires_no_redemptions: args.close_requires_no_redemptions,
    };
    Ok((link, locked))
}

/// One operation's effect on a link's accounts: a redemption that paid
/// `paid` out of what was left, or an operation that paid nothing and left
/// the counts alone. Either way the link stays well formed.
pub open spec fn ledger_step(pre: Cash, post: Cash, paid: int) -> bool {
    &&& post.wf()
    &&& post.amount == pre.amount
    &&& post.max_num_redemptions == pre.max_num_redemptions
    &&& {
        ||| (0 <= paid <= pre.remaining_amount && pre.total_redemptions < pre.max_num_redemptions
            && post.remaining_amount == pre.remaining_amount - paid && post.total_redemptions
            == pre.total_redemptions + 1)
        ||| (paid == 0 && post.remaining_amount == pre.remaining_amount && post.total_redemptions
            == pre.total_redemptions)
    }
}

/// What one redemption moves out of the escrow.
#[derive(Debug, Clone, Copy, PartialEq, Eq, Structural)]
pub struct RedemptionPlan {
    /// Paid to the recipient.
    pub amount_to_redeem: u64,
    /// Paid to the platform's fee sink.
    pub platform_fee: u64,
    /// Paid to the referrer.
    pub referrer_fee: u64,
    /// Paid back to the sender as the referee's share.
    pub referee_fee: u64,
    /// The fixed fees of this redemption, paid to the fee payer.
    pub fee_payer_fee: u64,
    /// All fees of this redemption.
    pub total_fee_to_redeem: u64,
    /// Swept back to the sender when the link is done paying out.
    pub leftover: u64,
    /// Whether this redemption finished the link.
    pub fully_redeemed: bool,
    /// Whether the host must create the marker of the redeemer's fingerprint.
    pub record_fingerprint: bool,
}

/// Why a live link refuses an operation, by its state.
pub open spec fn closed_state_error(c: Cash) -> Option<CashError> {
    match c.state {
        CashState::Canceled => Some(CashError::AccountAlreadyCanceled),
        CashState::Redeemed => Some(CashError::AccountAlreadyRedeemed),
        CashState::Expired => Some(CashError::AccountNotInitialized),
        CashState::Closed => Some(CashError::AccountNotInitialized),
        _ => None,
    }
}

/// Whether the call carries the pass key the link is gated by, if any.
pub open spec fn pass_key_presented(c: Cash, ctx: Context) -> bool {
    match c.pass_key {
        None => true,
        Some(k) => ctx.pass_key matches Some(p) && p@ == k@,
    }
}

/// Why a link refuses to be redeemed before its payout is computed,
/// checked in this order.
pub open spec fn redeem_gate_error(c: Cash, ctx: Context) -> Option<CashError> {
    if ctx.signer@ != c.authority@ {
        Some(CashError::InvalidAuthorityId)
    } else if !pass_key_presented(c, ctx) {
        Some(CashError::InvalidPassKey)
    } else if closed_state_error(c) is Some {
        closed_state_error(c)
    } else if c.total_redemptions >= c.max_num_redemptions {
        Some(CashError::MaxRedemptionsReached)
    } else if c.remaining_amount == 0 {
        Some(CashError::NoRemainingAmount)
    } else if c.expires_at matches Some(e) && ctx.now > e {
        Some(CashError::CashlinkExpired)
    } else {
        None
    }
}

/// The platform fee each redemption carries.
pub open spec fn platform_fee_per_redeem(c: Cash) -> int {
    fee_from_bps(c.amount as int, c.fee_bps as int) / c.max_num_redemptions as int
}

/// All fees of the next redemption: the platform share, the fixed fees,
/// and the network fee on the first redemption only.
pub open spec fn redemption_fee(c: Cash) -> int {
    platform_fee_per_redeem(c) + c.base_fee_to_redeem + c.rent_fee_to_redeem + if c.total_redemptions
        == 0 {
        c.network_fee as int
    } else {
        0
    }
}

/// The referee's rate: as given, or 0.
pub open spec fn referee_bps(args: InitCashRedemptionArgs) -> int {
    match args.referee_fee_bps {
        Some(e) => e as int,
        None => 0,
    }
}

/// The referrer's cut of the platform fee.
pub open spec fn referrer_share(c: Cash, args: InitCashRedemptionArgs) -> int {
    match args.referrer_fee_bps {
        Some(r) => fee_from_bps(platform_fee_per_redeem(c), r as int),
        None => 0,
    }
}

/// The referee's cut of the platform fee; there is none without a referrer.
pub open spec fn referee_share(c: Cash, args: InitCashRedemptionArgs) -> int {
    match args.referrer_fee_bps {
        Some(_) => fee_from_bps(platform_fee_per_redeem(c), referee_bps(args)),
        None => 0,
    }
}

/// The payout and weight total of the next redemption; zero where the
/// distribution refuses it.
pub open spec fn payout(c: Cash, args: InitCashRedemptionArgs, ctx: Context) -> (u64, u32) {
    match distribution_outcome(c, args.weight_ppm, ctx.random_value) {
        Ok(p) => p,
        Err(_) => (0, 0),
    }
}

/// Why a redemption fails, checked in this order.
pub open spec fn redeem_error(c: Cash, args: InitCashRedemptionArgs, ctx: Context) -> Option<
    CashError,
> {
    if redeem_gate_error(c, ctx) is Some {
        redeem_gate_error(c, ctx)
    } else if distribution_outcome(c, args.weight_ppm, ctx.random_value) is Err {
        Some(distribution_outcome(c, args.weight_ppm, ctx.random_value)->Err_0)
    } else if ctx.vault_balance < payout(c, args, ctx).0 + redemption_fee(c) {
        Some(CashError::InsufficientSettlementFunds)
    } else if args.referrer_fee_bps matches Some(r) && r + referee_bps(args) > 10000 {
        Some(CashError::InvalidReferralFees)
    } else if c.fingerprint_enabled && args.fingerprint is None {
        Some(CashError::FingerprintNotProvided)
    } else if c.fingerprint_enabled && ctx.fingerprint_taken {
        Some(CashError::FingerprintAlreadyUsed)
    } else {
        None
    }
}

/// The link after paying `paid` out, before its state is settled.
pub open spec fn paid_out(c: Cash, paid: u64, weight: u32, now: u64) -> Cash {
    Cash {
        remaining_amount: (c.remaining_amount - paid) as u64,
        total_redemptions: (c.total_redemptions + 1) as u16,
        total_weight_ppm: weight,
        last_redeemed_at: Some(now),
        ..c
    }
}

/// The link after a successful redemption.
pub open spec fn redeemed_link(c: Cash, args: InitCashRedemptionArgs, ctx: Context) -> Cash {
    let mid = paid_out(c, payout(c, args, ctx).0, payout(c, args, ctx).1, ctx.now);
    Cash {
        state: if fully_redeemed(mid) {
            CashState::Redeemed
        } else {
            CashState::Redeeming
        },
        ..mid
    }
}

/// The value movements of a successful redemption.
pub open spec fn redemption_plan(c: Cash, args: InitCashRedemptionArgs, ctx: Context) -> RedemptionPlan {
    let paid = payout(c, args, ctx).0;
    let fee = redemption_fee(c);
    let fully = fully_redeemed(paid_out(c, paid, payout(c, args, ctx).1, ctx.now));
    RedemptionPlan {
        amount_to_redeem: paid,
        platform_fee: (platform_fee_per_redeem(c) - referrer_share(c, args) - referee_share(
            c,
            args,
        )) as u64,
        referrer_fee: referrer_share(c, args) as u64,
        referee_fee: referee_share(c, args) as u64,
        fee_payer_fee: (fee - platform_fee_per_redeem(c)) as u64,
        total_fee_to_redeem: fee as u64,
        leftover: if fully {
            (ctx.vault_balance - paid - fee) as u64
        } else {
            0
        },
        fully_redeemed: fully,
        record_fingerprint: c.fingerprint_enabled,
    }
}

proof fn lemma_fees_fit(c: Cash, paid: u64)
    requires
        c.wf(),
        paid <= c.remaining_amount,
    ensures
        0 <= platform_fee_per_redeem(c) <= fee_from_bps(c.amount as int, c.fee_bps as int),
        platform_fee_per_redeem(c) * 10000 <= c.amount * c.fee_bps,
        paid + redemption_fee(c) <= locked_total(c),
{
    let f = fee_from_bps(c.amount as int, c.fee_bps as int);
    let m = c.max_num_redemptions as int;
    let per = c.base_fee_to_redeem + c.rent_fee_to_redeem;
    assert(0 <= f && f * 10000 <= c.amount * c.fee_bps) by (nonlinear_arith)
        requires
            f == c.amount * c.fee_bps / 10000,
            c.amount >= 0,
            c.fee_bps >= 0,
    ;
    assert(0 <= f / m <= f && (f / m) * 10000 <= f * 10000) by (nonlinear_arith)
        requires
            f >= 0,
            m >= 1,
    ;
    assert(per <= per * m) by (nonlinear_arith)
        requires
            per >= 0,
            m >= 1,
    ;
}

proof fn lemma_referral_fits(p: int, r: int, e: int)
    requires
        p >= 0,
        r >= 0,
        e >= 0,
        r + e <= 10000,
    ensures
        fee_from_bps(p, r) + fee_from_bps(p, e) <= p,
        p * r <= p * 10000,
        p * e <= p * 10000,
{
    assert(p * r + p * e <= p * 10000) by (nonlinear_arith)
        requires
            p >= 0,
            r >= 0,
            e >= 0,
            r + e <= 10000,
    ;
    assert(p * r / 10000 + p * e / 10000 <= (p * r + p * e) / 10000) by (nonlinear_arith)
        requires
            p * r >= 0,
            p * e >= 0,
    ;
    assert((p * r + p * e) / 10000 <= p * 10000 / 10000) by (nonlinear_arith)
        requires
            p * r + p * e <= p * 10000,
            p * r + p * e >= 0,
    ;
    assert(p * r <= p * 10000 && p * e <= p * 10000) by (nonlinear_arith)
        requires
            p >= 0,
            r >= 0,
            e >= 0,
            r + e <= 10000,
    ;
}

/// Redeems a link once: computes the payout by its distribution type,
/// charges the fees, settles whether the link is done, and returns what
/// must move out of the escrow. On failure the link is left unchanged.
pub fn process_redemption(cash: &mut Cash, args: &InitCashRedemptionArgs, ctx: &Context) -> (r:
    Result<RedemptionPlan, CashError>)
    requires
        old(cash).wf(),
    ensures
        r is Err <==> redeem_error(*old(cash), *args, *ctx) is Some,
        r matches Err(e) ==> redeem_error(*old(cash), *args, *ctx) == Some(e) && *final(cash)
            == *old(cash),
        r matches Ok(plan) ==> plan == redemption_plan(*old(cash), *args, *ctx) && *final(cash)
            == redeemed_link(*old(cash), *args, *ctx),
        ledger_step(
            *old(cash),
            *final(cash),
            match r {
                Ok(plan) => plan.amount_to_redeem as int,
                Err(_) => 0,
            },
        ),
{
    if ctx.signer != cash.authority {
        return Err(CashError::InvalidAuthorityId);
    }
    match cash.pass_key {
        Some(k) => match ctx.pass_key {
            Some(p) => {
                if p != k {
                    return Err(CashError::InvalidPassKey);
                }
            },
            None => return Err(CashError::InvalidPassKey),
        },
        None => {},
    }
    match cash.state {
        CashState::Canceled => return Err(CashError::AccountAlreadyCanceled),
        CashState::Redeemed => return Err(CashError::AccountAlreadyRedeemed),
        CashState::Expired => return Err(CashError::AccountNotInitialized),
        CashState::Closed => return Err(CashError::AccountNotInitialized),
        _ => {},
    }
    if cash.total_redemptions >= cash.max_num_redemptions {
        return Err(CashError::MaxRedemptionsReached);
    }
    if cash.remaining_amount == 0 {
        return Err(CashError::NoRemainingAmount);
    }
    match cash.expires_at {
        Some(e) => {
            if ctx.now > e {
                return Err(CashError::CashlinkExpired);
            }
        },
        None => {},
    }
    let (paid, new_weight) = amount_to_redeem(cash, args.weight_ppm, ctx.random_value)?;
    proof {
        lemma_fees_fit(*cash, paid);
    }
    let bps_fee = match calculate_fee(cash.amount, cash.fee_bps as u64) {
        Ok(f) => f,
        Err(e) => return Err(e),
    };
    let platform_per_redeem = bps_fee / cash.max_num_redemptions as u64;
    let fixed_fees = cash.base_fee_to_redeem + cash.rent_fee_to_redeem;
    let total_fee = if cash.total_redemptions == 0 {
        platform_per_redeem + fixed_fees + cash.network_fee
    } else {
        platform_per_redeem + fixed_fees
    };
    let total = paid + total_fee;
    if ctx.vault_balance < total {
        return Err(CashError::InsufficientSettlementFunds);
    }
    let (referrer_fee, referee_fee) = match args.referrer_fee_bps {
        Some(referrer_bps) => {
            let referee_bps: u16 = match args.referee_fee_bps {
                Some(e) => e,
                None => 0,
            };
            if referrer_bps as u32 + referee_bps as u32 > 10000 {
                return Err(CashError::InvalidReferralFees);
            }
            proof {
                lemma_referral_fits(platform_per_redeem as int, referrer_bps as int, referee_bps as int);
            }
            (
                platform_per_redeem * referrer_bps as u64 / 10000,
                platform_per_redeem * referee_bps as u64 / 10000,
            )
        },
        None => (0, 0),
    };
    if cash.fingerprint_enabled {
        match &args.fingerprint {
            None => return Err(CashError::FingerprintNotProvided),
            Some(_) => {},
        }
        if ctx.fingerprint_taken {
            return Err(CashError::FingerprintAlreadyUsed);
        }
    }
    let ghost pre = *cash;
    cash.remaining_amount = cash.remaining_amount - paid;
    cash.total_redemptions = cash.total_redemptions + 1;
    cash.total_weight_ppm = new_weight;
    cash.last_redeemed_at = Some(ctx.now);
    proof {
        if pre.distribution_type == DistributionType::Fixed || pre.distribution_type
            == DistributionType::Equal {
            let q = even_share(pre);
            let t = pre.total_redemptions as int;
            let a = pre.amount as int;
            let rem = pre.remaining_amount as int;
            assert(rem - q == a - (t + 1) * q) by (nonlinear_arith)
                requires
                    rem == a - t * q,
            ;
        }
    }
    let fully = cash.is_fully_redeemed();
    cash.state = if fully {
        CashState::Redeemed
    } else {
        CashState::Redeeming
    };
    Ok(
        RedemptionPlan {
            amount_to_redeem: paid,
            platform_fee: platform_per_redeem - referrer_fee - referee_fee,
            referrer_fee,
            referee_fee,
            fee_payer_fee: total_fee - platform_per_redeem,
            total_fee_to_redeem: total_fee,
            leftover: if fully {
                ctx.vault_balance - total
            } else {
                0
            },
            fully_redeemed: fully,
            record_fingerprint: cash.fingerprint_enabled,
        },
    )
}

/// What releasing a link's escrow moves back to its sender.
#[derive(Debug, Clone, Copy, PartialEq, Eq, Structural)]
pub struct RefundPlan {
    /// The link's remaining amount.
    pub refund: u64,
    /// The rest of the escrow: fees that will not be charged.
    pub released: u64,
}

/// The refund of a link whose escrow holds `vault_balance`.
pub open spec fn refund_plan(c: Cash, vault_balance: u64) -> RefundPlan {
    RefundPlan {
        refund: c.remaining_amount,
        released: (vault_balance - c.remaining_amount) as u64,
    }
}

/// Why a link cannot be canceled, checked in this order.
pub open spec fn cancel_error(c: Cash, ctx: Context) -> Option<CashError> {
    if ctx.signer@ != c.authority@ {
        Some(CashError::InvalidAuthorityId)
    } else if closed_state_error(c) is Some {
        closed_state_error(c)
    } else if !c.cancel_after_redemption && c.total_redemptions > 0 {
        Some(CashError::AccountAlreadyRedeemed)
    } else if ctx.vault_balance < c.remaining_amount {
        Some(CashError::InsufficientSettlementFunds)
    } else {
        None
    }
}

/// The link after a successful cancellation.
pub open spec fn canceled_link(c: Cash, ctx: Context) -> Cash {
    Cash { state: CashState::Canceled, canceled_at: Some(ctx.now), ..c }
}

/// Cancels a live link: its remaining amount goes back to the sender and
/// its escrow is released. On failure the link is left unchanged.
pub fn process_cancel(cash: &mut Cash, ctx: &Context) -> (r: Result<RefundPlan, CashError>)
    requires
        old(cash).wf(),
    ensures
        r is Err <==> cancel_error(*old(cash), *ctx) is Some,
        r matches Err(e) ==> cancel_error(*old(cash), *ctx) == Some(e) && *final(cash) == *old(
            cash,
        ),
        r matches Ok(plan) ==> plan == refund_plan(*old(cash), ctx.vault_balance) && *final(cash)
            == canceled_link(*old(cash), *ctx),
        ledger_step(*old(cash), *final(cash), 0),
{
    if ctx.signer != cash.authority {
        return Err(CashError::InvalidAuthorityId);
    }
    match cash.state {
        CashState::Canceled => return Err(CashError::AccountAlreadyCanceled),
        CashState::Redeemed => return Err(CashError::AccountAlreadyRedeemed),
        CashState::Expired => return Err(CashError::AccountNotInitialized),
        CashState::Closed => return Err(CashError::AccountNotInitialized),
        _ => {},
    }
    if !cash.cancel_after_redemption && cash.total_redemptions > 0 {
        return Err(CashError::AccountAlreadyRedeemed);
    }
    if ctx.vault_balance < cash.remaining_amount {
        return Err(CashError::InsufficientSettlementFunds);
    }
    cash.state = CashState::Canceled;
    cash.canceled_at = Some(ctx.now);
    Ok(RefundPlan { refund: cash.remaining_amount, released: ctx.vault_balance - cash.remaining_amount })
}

/// Why a link cannot be expired, checked in this order.
pub open spec fn expire_error(c: Cash, ctx: Context) -> Option<CashError> {
    if ctx.signer@ != c.authority@ {
        Some(CashError::InvalidAuthorityId)
    } else if closed_state_error(c) is Some {
        closed_state_error(c)
    } else if c.state != CashState::Initialized {
        Some(CashError::AccountInvalidState)
    } else if !(c.expires_at matches Some(e) && ctx.now > e) {
        Some(CashError::CashlinkNotExpired)
    } else if ctx.vault_balance < c.remaining_amount {
        Some(CashError::InsufficientSettlementFunds)
    } else {
        None
    }
}

/// The link after it expired.
pub open spec fn expired_link(c: Cash) -> Cash {
    Cash { state: CashState::Expired, ..c }
}

/// Expires a link that was never redeemed once its expiry has passed: its
/// remaining amount goes back to the sender and its escrow is released. On
/// failure the link is left unchanged.
pub fn process_expire(cash: &mut Cash, ctx: &Context) -> (r: Result<RefundPlan, CashError>)
    requires
        old(cash).wf(),
    ensures
        r is Err <==> expire_error(*old(cash), *ctx) is Some,
        r matches Err(e) ==> expire_error(*old(cash), *ctx) == Some(e) && *final(cash) == *old(
            cash,
        ),
        r matches Ok(plan) ==> plan == refund_plan(*old(cash), ctx.vault_balance) && *final(cash)
            == expired_link(*old(cash)),
        ledger_step(*old(cash), *final(cash), 0),
{
    if ctx.signer != cash.authority {
        return Err(CashError::InvalidAuthorityId);
    }
    match cash.state {
        CashState::Canceled => return Err(CashError::AccountAlreadyCanceled),
        CashState::Redeemed => return Err(CashError::AccountAlreadyRedeemed),
        CashState::Expired => return Err(CashError::AccountNotInitialized),
        CashState::Closed => return Err(CashError::AccountNotInitialized),
        CashState::Redeeming => return Err(CashError::AccountInvalidState),
        CashState::Initialized => {},
    }
    match cash.expires_at {
        Some(e) => {
            if ctx.now <= e {
                return Err(CashError::CashlinkNotExpired);
            }
        },
        None => return Err(CashError::CashlinkNotExpired),
    }
    if ctx.vault_balance < cash.remaining_amount {
        return Err(CashError::InsufficientSettlementFunds);
    }
    cash.state = CashState::Expired;
    Ok(RefundPlan { refund: cash.remaining_amount, released: ctx.vault_balance - cash.remaining_amount })
}

/// Why a link cannot be closed, checked in this order.
pub open spec fn close_error(c: Cash, ctx: Context) -> Option<CashError> {
    if ctx.signer@ != c.authority@ {
        Some(CashError::InvalidAuthorityId)
    } else if c.state == CashState::Closed || c.state == CashState::Initialized || c.state
        == CashState::Redeeming {
        Some(CashError::AccountNotCanceled)
    } else if c.state == CashState::Canceled && c.close_requires_no_redemptions
        && c.total_redemptions > 0 {
        Some(CashError::AccountAlreadyRedeemed)
    } else {
        None
    }
}

/// The link after it was closed.
pub open spec fn closed_link(c: Cash) -> Cash {
    Cash { state: CashState::Closed, ..c }
}

/// Closes a link that is done (canceled, redeemed or expired), so that its
/// storage can be reclaimed. On failure the link is left unchanged.
pub fn process_close(cash: &mut Cash, ctx: &Context) -> (r: Result<(), CashError>)
    requires
        old(cash).wf(),
    ensures
        r is Err <==> close_error(*old(cash), *ctx) is Some,
        r matches Err(e) ==> close_error(*old(cash), *ctx) == Some(e) && *final(cash) == *old(
            cash,
        ),
        r is Ok ==> *final(cash) == closed_link(*old(cash)),
        ledger_step(*old(cash), *final(cash), 0),
{
    if ctx.signer != cash.authority {
        return Err(CashError::InvalidAuthorityId);
    }
    match cash.state {
        CashState::Closed | CashState::Initialized | CashState::Redeeming => {
            return Err(CashError::AccountNotCanceled)
        },
        CashState::Canceled => {
            if cash.close_requires_no_redemptions && cash.total_redemptions > 0 {
                return Err(CashError::AccountAlreadyRedeemed);
            }
        },
        _ => {},
    }
    cash.state = CashState::Closed;
    Ok(())
}

/// What the host must carry out after a successful operation.
#[derive(Debug, Clone, Copy, PartialEq, Eq, Structural)]
pub enum Effect {
    /// Lock `locked` from the sender into the new link's escrow.
    Created { locked: u64 },
    /// Move value out of the escrow as the plan says.
    Redeemed(RedemptionPlan),
    /// Return the refund and the released fees to the sender.
    Refunded(RefundPlan),
    /// Reclaim the link's storage.
    Closed,
}

/// What an operation paid to a recipient.
pub open spec fn paid_by(r: Result<Effect, CashError>) -> int {
    match r {
        Ok(Effect::Redeemed(plan)) => plan.amount_to_redeem as int,
        _ => 0,
    }
}

/// The result of an operation on a stored record, and the record after it.
pub open spec fn process_outcome(ins: CashInstruction, c: Cash, ctx: Context) -> (Result<
    Effect,
    CashError,
>, Cash) {
    match ins {
        CashInstruction::InitCash(args) => if c.account_type == AccountType::Cash {
            (Err(CashError::AccountAlreadyInitialized), c)
        } else if init_error(args, ctx) is Some {
            (Err(init_error(args, ctx)->Some_0), c)
        } else {
            (
                Ok(Effect::Created { locked: locked_total(created_link(args, ctx)) as u64 }),
                created_link(args, ctx),
            )
        },
        CashInstruction::Redeem(args) => if c.account_type != AccountType::Cash {
            (Err(CashError::AccountNotInitialized), c)
        } else if redeem_error(c, args, ctx) is Some {
            (Err(redeem_error(c, args, ctx)->Some_0), c)
        } else {
            (Ok(Effect::Redeemed(redemption_plan(c, args, ctx))), redeemed_link(c, args, ctx))
        },
        CashInstruction::Cancel(_) => if c.account_type != AccountType::Cash {
            (Err(CashError::AccountNotInitialized), c)
        } else if cancel_error(c, ctx) is Some {
            (Err(cancel_error(c, ctx)->Some_0), c)
        } else {
            (Ok(Effect::Refunded(refund_plan(c, ctx.vault_balance))), canceled_link(c, ctx))
        },
        CashInstruction::Expire(_) => if c.account_type != AccountType::Cash {
            (Err(CashError::AccountNotInitialized), c)
        } else if expire_error(c, ctx) is Some {
            (Err(expire_error(c, ctx)->Some_0), c)
        } else {
            (Ok(Effect::Refunded(refund_plan(c, ctx.vault_balance))), expired_link(c))
        },
        CashInstruction::Close => if c.account_type != AccountType::Cash {
            (Err(CashError::AccountNotInitialized), c)
        } else if close_error(c, ctx) is Some {
            (Err(close_error(c, ctx)->Some_0), c)
        } else {
            (Ok(Effect::Closed), closed_link(c))
        },
    }
}

/// Runs the operations of a link against its stored record.
pub struct Processor;

impl Processor {
    /// Applies `instruction` to the stored record `cash`; see
    /// `process_outcome`. A record that holds a link must be well formed,
    /// and stays so.
    pub fn process(instruction: &CashInstruction, cash: &mut Cash, ctx: &Context) -> (r: Result<
        Effect,
        CashError,
    >)
        requires
            old(cash).account_type == AccountType::Cash ==> old(cash).wf(),
        ensures
            (r, *final(cash)) == process_outcome(*instruction, *old(cash), *ctx),
            final(cash).account_type == AccountType::Cash ==> final(cash).wf(),
            old(cash).account_type == AccountType::Cash ==> ledger_step(
                *old(cash),
                *final(cash),
                paid_by(r),
            ),
    {
        match instruction {
            CashInstruction::InitCash(args) => {
                if cash.account_type == AccountType::Cash {
                    return Err(CashError::AccountAlreadyInitialized);
                }
                let (link, locked) = process_init(args, ctx)?;
                *cash = link;
                Ok(Effect::Created { locked })
            },
            CashInstruction::Redeem(args) => {
                if cash.account_type != AccountType::Cash {
                    return Err(CashError::AccountNotInitialized);
                }
                let plan = process_redemption(cash, args, ctx)?;
                Ok(Effect::Redeemed(plan))
            },
            CashInstruction::Cancel(_) => {
                if cash.account_type != AccountType::Cash {
                    return Err(CashError::AccountNotInitialized);
                }
                let plan = process_cancel(cash, ctx)?;
                Ok(Effect::Refunded(plan))
            },
            CashInstruction::Expire(_) => {
                if cash.account_type != AccountType::Cash {
                    return Err(CashError::AccountNotInitialized);
                }
                let plan = process_expire(cash, ctx)?;
                Ok(Effect::Refunded(plan))
            },
            CashInstruction::Close => {
                if cash.account_type != AccountType::Cash {
                    return Err(CashError::AccountNotInitialized);
                }
                process_close(cash, ctx)?;
                Ok(Effect::Closed)
            },
        }
    }
}

} // verus!
