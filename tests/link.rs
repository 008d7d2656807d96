use cashlink::error::CashError;
use cashlink::instruction::{CancelCashRedemptionArgs, CashInstruction, InitCashArgs, InitCashRedemptionArgs};
use cashlink::processor::{
    process_cancel, process_close, process_expire, process_init, process_redemption, Context,
    Effect, Processor, RefundPlan,
};
use cashlink::state::{AccountType, Address, Cash, CashState, DistributionType};

fn key(b: u8) -> Address {
    Address::new([b; 32])
}

fn authority() -> Address {
    key(1)
}

fn ctx(vault_balance: u64) -> Context {
    Context {
        signer: authority(),
        owner: key(2),
        mint: key(3),
        pass_key: None,
        now: 1000,
        random_value: 0,
        vault_balance,
        fingerprint_taken: false,
    }
}

fn init_args(amount: u64, max: u16, distribution_type: DistributionType) -> InitCashArgs {
    InitCashArgs {
        amount,
        fee_bps: 0,
        network_fee: 0,
        base_fee_to_redeem: 0,
        rent_fee_to_redeem: 0,
        cash_bump: 255,
        distribution_type,
        max_num_redemptions: max,
        min_amount: None,
        cash_reference: String::from("ref"),
        is_locked: false,
        fingerprint_enabled: false,
        expires_in_days: None,
        cancel_after_redemption: true,
        close_requires_no_redemptions: false,
    }
}

fn redeem_args() -> InitCashRedemptionArgs {
    InitCashRedemptionArgs {
        cash_bump: 255,
        cash_reference: String::from("ref"),
        referrer_fee_bps: None,
        referee_fee_bps: None,
        weight_ppm: None,
        rate_usd: None,
        redemption_bump: 254,
        fingerprint: None,
    }
}

fn weighted(w: u32) -> InitCashRedemptionArgs {
    InitCashRedemptionArgs { weight_ppm: Some(w), ..redeem_args() }
}

fn create(args: &InitCashArgs) -> (Cash, u64) {
    process_init(args, &ctx(0)).expect("valid configuration")
}

#[test]
fn fixed_link_pays_equal_shares() {
    let (mut cash, locked) = create(&init_args(1000, 4, DistributionType::Fixed));
    assert_eq!(locked, 1000);
    for i in 0..4u64 {
        let plan = process_redemption(&mut cash, &redeem_args(), &ctx(1000 - 250 * i)).unwrap();
        assert_eq!(plan.amount_to_redeem, 250);
        assert_eq!(cash.remaining_amount, 1000 - 250 * (i + 1));
    }
    assert_eq!(cash.state, CashState::Redeemed);
    assert_eq!(cash.total_redemptions, 4);
    assert_eq!(
        process_redemption(&mut cash, &redeem_args(), &ctx(1000)).unwrap_err(),
        CashError::AccountAlreadyRedeemed
    );
}

#[test]
fn fixed_link_rejects_indivisible_amount() {
    let r = process_init(&init_args(1001, 4, DistributionType::Fixed), &ctx(0));
    assert_eq!(r.unwrap_err(), CashError::InvalidAmount);
    // Equal distribution has no divisibility rule.
    let (cash, _) = create(&init_args(1001, 4, DistributionType::Equal));
    assert_eq!(cash.remaining_amount, 1001);
}

#[test]
fn weighted_budget_cannot_be_exceeded() {
    let (mut cash, _) = create(&init_args(1000, 3, DistributionType::Weighted));
    let first = process_redemption(&mut cash, &weighted(400_000), &ctx(1000)).unwrap();
    assert_eq!(first.amount_to_redeem, 400);
    let second = process_redemption(&mut cash, &weighted(400_000), &ctx(600)).unwrap();
    assert_eq!(second.amount_to_redeem, 400);
    assert_eq!(cash.total_weight_ppm, 800_000);
    let before = cash;
    let third = process_redemption(&mut cash, &weighted(300_000), &ctx(200));
    assert_eq!(third.unwrap_err(), CashError::TotalWeightExceeded);
    assert_eq!(cash.total_weight_ppm, 800_000);
    assert_eq!(cash.remaining_amount, before.remaining_amount);
    assert_eq!(cash.total_redemptions, 2);
}

#[test]
fn weighted_redemption_needs_a_valid_weight() {
    let (mut cash, _) = create(&init_args(1000, 3, DistributionType::Weighted));
    let r = process_redemption(&mut cash, &redeem_args(), &ctx(1000));
    assert_eq!(r.unwrap_err(), CashError::WeightNotProvided);
    let r = process_redemption(&mut cash, &weighted(0), &ctx(1000));
    assert_eq!(r.unwrap_err(), CashError::InvalidWeight);
    let r = process_redemption(&mut cash, &weighted(1_000_001), &ctx(1000));
    assert_eq!(r.unwrap_err(), CashError::InvalidWeight);
    let all = process_redemption(&mut cash, &weighted(1_000_000), &ctx(1000)).unwrap();
    assert_eq!(all.amount_to_redeem, 1000);
    assert!(all.fully_redeemed);
}

#[test]
fn random_final_redemption_takes_the_rest() {
    let mut args = init_args(1000, 4, DistributionType::Random);
    args.min_amount = Some(10);
    let (mut cash, _) = create(&args);
    let mut paid = 0u64;
    for (i, seed) in [7u64, 123_456, 99].iter().enumerate() {
        let left = cash.remaining_amount;
        let redemptions_left = 4 - i as u64;
        let max_possible = (left / redemptions_left * 2).min(left);
        let min_possible = 10u64.min(left);
        let mut c = ctx(2000);
        c.random_value = *seed;
        let plan = process_redemption(&mut cash, &redeem_args(), &c).unwrap();
        assert!(plan.amount_to_redeem >= min_possible);
        assert!(plan.amount_to_redeem <= max_possible);
        paid += plan.amount_to_redeem;
    }
    let last = process_redemption(&mut cash, &redeem_args(), &ctx(2000)).unwrap();
    assert_eq!(last.amount_to_redeem, 1000 - paid);
    assert_eq!(cash.remaining_amount, 0);
    assert_eq!(cash.state, CashState::Redeemed);
}

#[test]
fn random_draw_is_reduced_into_range() {
    let mut args = init_args(1000, 4, DistributionType::Random);
    args.min_amount = Some(10);
    let (mut cash, _) = create(&args);
    let mut c = ctx(2000);
    c.random_value = 7;
    // average 250, so the draw falls in [10, 500]: 10 + 7 % 491
    let plan = process_redemption(&mut cash, &redeem_args(), &c).unwrap();
    assert_eq!(plan.amount_to_redeem, 17);
}

#[test]
fn random_link_needs_a_floor() {
    let r = process_init(&init_args(1000, 4, DistributionType::Random), &ctx(0));
    assert_eq!(r.unwrap_err(), CashError::MinAmountNotSet);
    let mut args = init_args(1000, 4, DistributionType::Random);
    args.min_amount = Some(1001);
    assert_eq!(process_init(&args, &ctx(0)).unwrap_err(), CashError::MinAmountMustBeLessThanAmount);
}

#[test]
fn fingerprint_redeems_once() {
    let mut args = init_args(1000, 4, DistributionType::Fixed);
    args.fingerprint_enabled = true;
    let (mut cash, _) = create(&args);
    let with_print = InitCashRedemptionArgs { fingerprint: Some(String::from("device-a")), ..redeem_args() };
    let plan = process_redemption(&mut cash, &with_print, &ctx(1000)).unwrap();
    assert!(plan.record_fingerprint);
    let before = cash;
    let mut again = ctx(750);
    again.fingerprint_taken = true;
    let r = process_redemption(&mut cash, &with_print, &again);
    assert_eq!(r.unwrap_err(), CashError::FingerprintAlreadyUsed);
    assert_eq!(cash.remaining_amount, before.remaining_amount);
    assert_eq!(cash.total_redemptions, before.total_redemptions);
    let r = process_redemption(&mut cash, &redeem_args(), &ctx(750));
    assert_eq!(r.unwrap_err(), CashError::FingerprintNotProvided);
}

#[test]
fn cancel_mid_stream_refunds_what_is_left() {
    let (mut cash, _) = create(&init_args(1000, 4, DistributionType::Fixed));
    process_redemption(&mut cash, &redeem_args(), &ctx(1000)).unwrap();
    assert_eq!(cash.state, CashState::Redeeming);
    let mut c = ctx(760);
    c.now = 2000;
    let plan = process_cancel(&mut cash, &c).unwrap();
    assert_eq!(plan, RefundPlan { refund: 750, released: 10 });
    assert_eq!(cash.state, CashState::Canceled);
    assert_eq!(cash.canceled_at, Some(2000));
    assert_eq!(process_cancel(&mut cash, &c).unwrap_err(), CashError::AccountAlreadyCanceled);
}

#[test]
fn cancel_after_redemption_can_be_forbidden() {
    let mut args = init_args(1000, 4, DistributionType::Fixed);
    args.cancel_after_redemption = false;
    let (mut cash, _) = create(&args);
    process_redemption(&mut cash, &redeem_args(), &ctx(1000)).unwrap();
    assert_eq!(process_cancel(&mut cash, &ctx(750)).unwrap_err(), CashError::AccountAlreadyRedeemed);
}

#[test]
fn end_to_end_fees() {
    let mut args = init_args(10000, 2, DistributionType::Fixed);
    args.fee_bps = 100;
    args.network_fee = 50;
    args.base_fee_to_redeem = 10;
    args.rent_fee_to_redeem = 5;
    let (mut cash, locked) = create(&args);
    assert_eq!(locked, 10180);

    let first = process_redemption(&mut cash, &redeem_args(), &ctx(locked)).unwrap();
    assert_eq!(first.amount_to_redeem, 5000);
    assert_eq!(first.total_fee_to_redeem, 115);
    assert_eq!(first.platform_fee, 50);
    assert_eq!(first.fee_payer_fee, 65);
    assert_eq!(cash.remaining_amount, 5000);
    assert_eq!(cash.state, CashState::Redeeming);
    assert!(!first.fully_redeemed);
    assert_eq!(first.leftover, 0);

    let vault = locked - first.amount_to_redeem - first.total_fee_to_redeem;
    let second = process_redemption(&mut cash, &redeem_args(), &ctx(vault)).unwrap();
    assert_eq!(second.amount_to_redeem, 5000);
    assert_eq!(second.total_fee_to_redeem, 65);
    assert_eq!(second.fee_payer_fee, 15);
    assert_eq!(cash.remaining_amount, 0);
    assert!(second.fully_redeemed);
    assert_eq!(cash.state, CashState::Redeemed);
    assert_eq!(second.leftover, 0);
}

#[test]
fn referral_splits_the_platform_fee() {
    let mut args = init_args(10000, 1, DistributionType::Fixed);
    args.fee_bps = 100;
    let (mut cash, locked) = create(&args);
    let referral = InitCashRedemptionArgs {
        referrer_fee_bps: Some(1000),
        referee_fee_bps: Some(500),
        ..redeem_args()
    };
    let plan = process_redemption(&mut cash, &referral, &ctx(locked)).unwrap();
    assert_eq!(plan.referrer_fee, 10);
    assert_eq!(plan.referee_fee, 5);
    assert_eq!(plan.platform_fee, 85);
}

#[test]
fn referral_over_whole_fee_is_refused() {
    let mut args = init_args(10000, 1, DistributionType::Fixed);
    args.fee_bps = 100;
    let (mut cash, locked) = create(&args);
    let referral = InitCashRedemptionArgs {
        referrer_fee_bps: Some(6000),
        referee_fee_bps: Some(4001),
        ..redeem_args()
    };
    let r = process_redemption(&mut cash, &referral, &ctx(locked));
    assert_eq!(r.unwrap_err(), CashError::InvalidReferralFees);
    assert_eq!(cash.remaining_amount, 10000);
}

#[test]
fn redemption_checks_authority_and_pass_key() {
    let mut args = init_args(1000, 2, DistributionType::Fixed);
    args.is_locked = true;
    assert_eq!(process_init(&args, &ctx(0)).unwrap_err(), CashError::InvalidPassKey);
    let mut c = ctx(0);
    c.pass_key = Some(key(9));
    let (mut cash, _) = process_init(&args, &c).unwrap();
    assert_eq!(cash.pass_key, Some(key(9)));

    let mut stranger = ctx(1000);
    stranger.signer = key(8);
    stranger.pass_key = Some(key(9));
    let r = process_redemption(&mut cash, &redeem_args(), &stranger);
    assert_eq!(r.unwrap_err(), CashError::InvalidAuthorityId);

    let r = process_redemption(&mut cash, &redeem_args(), &ctx(1000));
    assert_eq!(r.unwrap_err(), CashError::InvalidPassKey);
    let mut wrong = ctx(1000);
    wrong.pass_key = Some(key(7));
    let r = process_redemption(&mut cash, &redeem_args(), &wrong);
    assert_eq!(r.unwrap_err(), CashError::InvalidPassKey);

    let mut signed = ctx(1000);
    signed.pass_key = Some(key(9));
    assert_eq!(process_redemption(&mut cash, &redeem_args(), &signed).unwrap().amount_to_redeem, 500);
}

#[test]
fn redemption_needs_enough_escrow() {
    let mut args = init_args(1000, 2, DistributionType::Fixed);
    args.base_fee_to_redeem = 10;
    let (mut cash, _) = create(&args);
    let r = process_redemption(&mut cash, &redeem_args(), &ctx(509));
    assert_eq!(r.unwrap_err(), CashError::InsufficientSettlementFunds);
    assert_eq!(cash.total_redemptions, 0);
    assert!(process_redemption(&mut cash, &redeem_args(), &ctx(510)).is_ok());
}

#[test]
fn expired_link_cannot_be_redeemed() {
    let mut args = init_args(1000, 2, DistributionType::Fixed);
    args.expires_in_days = Some(1);
    let (mut cash, _) = create(&args);
    assert_eq!(cash.expires_at, Some(1000 + 86400));
    let mut late = ctx(1000);
    late.now = 1000 + 86401;
    let r = process_redemption(&mut cash, &redeem_args(), &late);
    assert_eq!(r.unwrap_err(), CashError::CashlinkExpired);

    let mut early = ctx(1000);
    early.now = 1000 + 86400;
    assert_eq!(process_expire(&mut cash, &early).unwrap_err(), CashError::CashlinkNotExpired);
    let plan = process_expire(&mut cash, &late).unwrap();
    assert_eq!(plan, RefundPlan { refund: 1000, released: 0 });
    assert_eq!(cash.state, CashState::Expired);
    assert_eq!(process_close(&mut cash, &late), Ok(()));
    assert_eq!(cash.state, CashState::Closed);
}

#[test]
fn close_only_from_a_terminal_state() {
    let mut args = init_args(1000, 2, DistributionType::Fixed);
    args.close_requires_no_redemptions = true;
    let (mut cash, _) = create(&args);
    assert_eq!(process_close(&mut cash, &ctx(0)).unwrap_err(), CashError::AccountNotCanceled);
    process_redemption(&mut cash, &redeem_args(), &ctx(1000)).unwrap();
    process_cancel(&mut cash, &ctx(500)).unwrap();
    assert_eq!(process_close(&mut cash, &ctx(0)).unwrap_err(), CashError::AccountAlreadyRedeemed);

    let (mut fresh, _) = create(&init_args(1000, 2, DistributionType::Fixed));
    process_cancel(&mut fresh, &ctx(1000)).unwrap();
    assert_eq!(process_close(&mut fresh, &ctx(0)), Ok(()));
    assert_eq!(process_close(&mut fresh, &ctx(0)).unwrap_err(), CashError::AccountNotCanceled);
}

#[test]
fn init_rejects_bad_configuration() {
    assert_eq!(process_init(&init_args(0, 2, DistributionType::Fixed), &ctx(0)).unwrap_err(), CashError::InvalidAmount);
    assert_eq!(
        process_init(&init_args(1000, 0, DistributionType::Fixed), &ctx(0)).unwrap_err(),
        CashError::InvalidNumberOfRedemptions
    );
    let mut args = init_args(u64::MAX, 1, DistributionType::Fixed);
    args.network_fee = 1;
    assert_eq!(process_init(&args, &ctx(0)).unwrap_err(), CashError::Overflow);
}

#[test]
fn dust_below_the_floor_finishes_the_link() {
    let mut args = init_args(100, 4, DistributionType::Random);
    args.min_amount = Some(30);
    let (mut cash, _) = create(&args);
    let mut c = ctx(1000);
    c.random_value = 0;
    // draw in [30, 50]: seed 0 gives 30, leaving 70 < 30 * 3
    let plan = process_redemption(&mut cash, &redeem_args(), &c).unwrap();
    assert_eq!(plan.amount_to_redeem, 30);
    assert!(plan.fully_redeemed);
    assert_eq!(cash.state, CashState::Redeemed);
    assert_eq!(plan.leftover, 1000 - 30);
}

#[test]
fn record_checks() {
    let (cash, _) = create(&init_args(1000, 4, DistributionType::Fixed));
    assert!(cash.is_valid());
    assert!(cash.initialized());
    assert!(cash.is_initialized());
    assert_eq!(cash.max_num_redemptions_remaining(), Ok(4));
    assert_eq!(cash.min_total_required(), Ok(4));
    assert!(!cash.is_fully_redeemed());
    let mut broken = cash;
    broken.remaining_amount = 1001;
    assert!(!broken.is_valid());
    let empty = Cash::default();
    assert_eq!(empty.account_type, AccountType::Uninitialized);
    assert!(!empty.is_valid());
}

#[test]
fn processor_runs_instructions_on_a_record() {
    let mut record = Cash::default();
    let init = CashInstruction::InitCash(init_args(1000, 2, DistributionType::Fixed));
    assert_eq!(Processor::process(&init, &mut record, &ctx(0)), Ok(Effect::Created { locked: 1000 }));
    assert_eq!(Processor::process(&init, &mut record, &ctx(0)), Err(CashError::AccountAlreadyInitialized));
    let redeem = CashInstruction::Redeem(redeem_args());
    match Processor::process(&redeem, &mut record, &ctx(1000)) {
        Ok(Effect::Redeemed(plan)) => assert_eq!(plan.amount_to_redeem, 500),
        other => panic!("unexpected {:?}", other),
    }
    let cancel = CashInstruction::Cancel(CancelCashRedemptionArgs { cash_bump: 1, cash_reference: String::from("ref") });
    assert_eq!(
        Processor::process(&cancel, &mut record, &ctx(500)),
        Ok(Effect::Refunded(RefundPlan { refund: 500, released: 0 }))
    );
    assert_eq!(Processor::process(&CashInstruction::Close, &mut record, &ctx(0)), Ok(Effect::Closed));
    let mut empty = Cash::default();
    assert_eq!(Processor::process(&redeem, &mut empty, &ctx(0)), Err(CashError::AccountNotInitialized));
}

#[test]
fn finished_states_refuse_live_operations() {
    let mut args = init_args(1000, 2, DistributionType::Fixed);
    args.expires_in_days = Some(1);
    let (mut cash, _) = create(&args);
    let mut late = ctx(1000);
    late.now = 1000 + 86401;
    process_expire(&mut cash, &late).unwrap();
    assert_eq!(process_cancel(&mut cash, &late).unwrap_err(), CashError::AccountNotInitialized);
    assert_eq!(process_redemption(&mut cash, &redeem_args(), &late).unwrap_err(), CashError::AccountNotInitialized);
    assert_eq!(process_expire(&mut cash, &late).unwrap_err(), CashError::AccountNotInitialized);
    process_close(&mut cash, &late).unwrap();
    assert_eq!(process_cancel(&mut cash, &late).unwrap_err(), CashError::AccountNotInitialized);
    assert_eq!(process_close(&mut cash, &late).unwrap_err(), CashError::AccountNotCanceled);
}

#[test]
fn redeemed_link_can_be_closed() {
    let (mut cash, _) = create(&init_args(1000, 1, DistributionType::Fixed));
    assert_eq!(process_close(&mut cash, &ctx(0)).unwrap_err(), CashError::AccountNotCanceled);
    process_redemption(&mut cash, &redeem_args(), &ctx(1000)).unwrap();
    assert_eq!(cash.state, CashState::Redeemed);
    assert_eq!(process_cancel(&mut cash, &ctx(0)).unwrap_err(), CashError::AccountAlreadyRedeemed);
    assert_eq!(process_close(&mut cash, &ctx(0)), Ok(()));
}
