//! Properties that hold across operations on a link.
use vstd::prelude::*;
use crate::distribution::{is_final_redemption, random_max_possible, random_min_possible, random_payout};
use crate::error::CashError;
use crate::instruction::{InitCashArgs, InitCashRedemptionArgs};
use crate::processor::{
    Context, cancel_error, canceled_link, created_link, init_error, ledger_step, redeem_error,
    redeemed_link, redemption_plan, refund_plan,
};
use crate::state::{Cash, CashState, DistributionType};

verus! {

/// The sum of `s`.
pub open spec fn total(s: Seq<int>) -> int
    decreases s.len(),
{
    if s.len() == 0 {
        0
    } else {
        total(s.drop_last()) + s.last()
    }
}

/// Value is conserved over every run of operations on a link: starting
/// from a link as `process_init` creates it, after any sequence of steps
/// that the operations allow, what is left plus everything paid out is the
/// link's amount, and the redemptions never exceed the maximum.
pub proof fn lemma_value_conserved(
    args: InitCashArgs,
    ctx: Context,
    trace: Seq<Cash>,
    paid: Seq<int>,
)
    requires
        init_error(args, ctx) is None,
        trace.len() == paid.len() + 1,
        trace[0] == created_link(args, ctx),
        forall|i: int| 0 <= i < paid.len() ==> ledger_step(#[trigger] trace[i], trace[i + 1], paid[i]),
    ensures
        trace.last().remaining_amount + total(paid) == trace.last().amount,
        trace.last().amount == args.amount,
        trace.last().total_redemptions <= trace.last().max_num_redemptions,
    decreases paid.len(),
{
    if paid.len() > 0 {
        let n = paid.len() - 1;
        assert(ledger_step(trace[n], trace[n + 1], paid[n]));
        lemma_value_conserved(args, ctx, trace.drop_last(), paid.drop_last());
        assert(trace.drop_last().last() == trace[n]);
    }
}

/// A random redemption pays out everything that is left when it is the
/// link's last one, and otherwise an amount between the floor and the
/// ceiling of `random_payout`, wherever the floor is not above the ceiling.
pub proof fn lemma_random_payout_bounds(c: Cash, args: InitCashRedemptionArgs, ctx: Context)
    requires
        c.wf(),
        c.distribution_type == DistributionType::Random,
        redeem_error(c, args, ctx) is None,
    ensures
        redemption_plan(c, args, ctx).amount_to_redeem == random_payout(c, ctx.random_value),
        is_final_redemption(c) ==> redemption_plan(c, args, ctx).amount_to_redeem
            == c.remaining_amount,
        !is_final_redemption(c) && random_min_possible(c) <= random_max_possible(c) ==> {
            &&& random_min_possible(c) <= redemption_plan(c, args, ctx).amount_to_redeem
            &&& redemption_plan(c, args, ctx).amount_to_redeem <= random_max_possible(c)
        },
{
    let lo = random_min_possible(c);
    let hi = random_max_possible(c);
    let v = ctx.random_value as int;
    assert(0 <= lo <= c.remaining_amount);
    assert(hi <= c.remaining_amount);
    if !is_final_redemption(c) && hi > lo {
        assert(0 <= v % (hi - lo + 1) < hi - lo + 1) by (nonlinear_arith)
            requires
                hi - lo + 1 > 0,
                v >= 0,
        ;
    }
}

/// A fingerprint redeems once: a successful redemption of a link that
/// asks for fingerprints records the redeemer's, and the same redemption
/// once that record exists fails with `FingerprintAlreadyUsed`, unless it
/// fails earlier for another reason.
pub proof fn lemma_fingerprint_once(
    c: Cash,
    args: InitCashRedemptionArgs,
    first: Context,
    second: Context,
)
    requires
        c.wf(),
        c.fingerprint_enabled,
        redeem_error(c, args, first) is None,
        second.fingerprint_taken,
    ensures
        redemption_plan(c, args, first).record_fingerprint,
        redeem_error(redeemed_link(c, args, first), args, second) is Some,
        redeem_error(redeemed_link(c, args, first), args, second) == Some(
            CashError::FingerprintAlreadyUsed,
        ) || redeem_error(
            redeemed_link(c, args, first),
            args,
            (Context { fingerprint_taken: false, ..second }),
        ) is Some,
{
}

/// Canceling refunds exactly what is left of the link and marks it
/// canceled, and canceling it again fails with `AccountAlreadyCanceled`.
pub proof fn lemma_cancel_once(c: Cash, first: Context, second: Context)
    requires
        c.wf(),
        cancel_error(c, first) is None,
        second.signer@ == c.authority@,
    ensures
        refund_plan(c, first.vault_balance).refund == c.remaining_amount,
        canceled_link(c, first).state == CashState::Canceled,
        canceled_link(c, first).remaining_amount == c.remaining_amount,
        cancel_error(canceled_link(c, first), second) == Some(CashError::AccountAlreadyCanceled),
{
}

/// Canceling a link mid-stream, one that paid out already and was created
/// to allow cancellation after a redemption, succeeds whenever its authority
/// asks and the escrow holds what is left: the sender gets back exactly the
/// remaining amount, the rest of the escrow is released, and the link is
/// canceled for good.
pub proof fn lemma_cancel_mid_stream(c: Cash, ctx: Context, again: Context)
    requires
        c.wf(),
        c.state == CashState::Redeeming,
        c.cancel_after_redemption,
        ctx.signer@ == c.authority@,
        ctx.vault_balance >= c.remaining_amount,
        again.signer@ == c.authority@,
    ensures
        cancel_error(c, ctx) is None,
        refund_plan(c, ctx.vault_balance).refund == c.remaining_amount,
        refund_plan(c, ctx.vault_balance).released == ctx.vault_balance - c.remaining_amount,
        canceled_link(c, ctx).state == CashState::Canceled,
        canceled_link(c, ctx).remaining_amount == c.remaining_amount,
        cancel_error(canceled_link(c, ctx), again) == Some(CashError::AccountAlreadyCanceled),
{
}

} // verus!
