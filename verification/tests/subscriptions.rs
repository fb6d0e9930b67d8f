use flowpay::{ContractError, FlowPay, Refusal, SubscribeContext, Subscription};

fn ctx(now: u64) -> SubscribeContext {
    SubscribeContext {
        whitelist_enabled: false,
        merchant_whitelisted: false,
        min_interval: None,
        allowance: 1_000,
        now,
        existing_active: None,
    }
}

fn sub(last_charged: u64) -> Subscription<&'static str> {
    Subscription {
        merchant: "merchant",
        amount: 100,
        interval: 3600,
        last_charged,
        active: true,
        paused: false,
        token: "token",
    }
}

#[test]
fn subscribe_creates_active_subscription() {
    let plan = FlowPay::subscribe("merchant", 100, 3600, "token", None, ctx(1_000)).unwrap();
    assert_eq!(plan.subscription, sub(1_000));
    assert!(plan.counted);
    assert!(plan.indexed);
}

#[test]
fn subscribe_with_trial_defers_first_charge() {
    let plan = FlowPay::subscribe("merchant", 100, 3600, "token", Some(500), ctx(1_000)).unwrap();
    assert_eq!(plan.subscription.last_charged, 1_500);
    assert_eq!(FlowPay::next_charge_at(&Some(plan.subscription.clone())), Ok(Some(5_100)));
    assert_eq!(FlowPay::get_trial_end(&Some(plan.subscription), 1_000), Some(1_500));
}

#[test]
fn subscribe_without_trial_has_no_trial_end() {
    let plan = FlowPay::subscribe("merchant", 100, 3600, "token", None, ctx(1_000)).unwrap();
    assert_eq!(FlowPay::get_trial_end(&Some(plan.subscription), 1_000), None);
}

#[test]
fn subscribe_counts_only_when_no_active_subscription() {
    let mut c = ctx(0);
    c.existing_active = Some(true);
    let plan = FlowPay::subscribe("m", 1, 3600, "t", None, c).unwrap();
    assert!(!plan.counted);
    assert!(!plan.indexed);
    c.existing_active = Some(false);
    let plan = FlowPay::subscribe("m", 1, 3600, "t", None, c).unwrap();
    assert!(plan.counted);
    assert!(!plan.indexed);
}

#[test]
fn subscribe_refuses_unlisted_merchant() {
    let mut c = ctx(0);
    c.whitelist_enabled = true;
    assert_eq!(
        FlowPay::subscribe("m", 100, 3600, "t", None, c),
        Err(Refusal::Code(ContractError::MerchantNotWhitelisted))
    );
    c.merchant_whitelisted = true;
    assert!(FlowPay::subscribe("m", 100, 3600, "t", None, c).is_ok());
}

#[test]
fn subscribe_refuses_bad_terms() {
    assert_eq!(
        FlowPay::subscribe("m", 0, 3600, "t", None, ctx(0)),
        Err(Refusal::AmountNotPositive)
    );
    assert_eq!(
        FlowPay::subscribe("m", 100, 0, "t", None, ctx(0)),
        Err(Refusal::IntervalNotPositive)
    );
    assert_eq!(
        FlowPay::subscribe("m", 100, 3599, "t", None, ctx(0)),
        Err(Refusal::Code(ContractError::IntervalTooShort))
    );
    let mut c = ctx(0);
    c.min_interval = Some(60);
    assert!(FlowPay::subscribe("m", 100, 60, "t", None, c).is_ok());
    assert_eq!(
        FlowPay::subscribe("m", 2_000, 3600, "t", None, ctx(0)),
        Err(Refusal::InsufficientAllowance)
    );
    assert_eq!(
        FlowPay::subscribe("m", 100, 3600, "t", Some(u64::MAX), ctx(1)),
        Err(Refusal::ArithmeticOverflow)
    );
}

#[test]
fn check_terms_matches_subscribe_prefix() {
    assert_eq!(FlowPay::check_terms(false, false, 100, 3600, None), Ok(()));
    assert_eq!(
        FlowPay::check_terms(true, false, 100, 3600, None),
        Err(Refusal::Code(ContractError::MerchantNotWhitelisted))
    );
    assert_eq!(
        FlowPay::check_terms(false, false, -5, 3600, None),
        Err(Refusal::AmountNotPositive)
    );
}

#[test]
fn min_interval_defaults_to_one_hour() {
    assert_eq!(FlowPay::get_min_interval(None), 3600);
    assert_eq!(FlowPay::get_min_interval(Some(10)), 10);
    assert_eq!(FlowPay::get_grace_period(None), 0);
    assert_eq!(FlowPay::get_grace_period(Some(7)), 7);
}

#[test]
fn charge_after_interval_updates_last_charged() {
    let charged = FlowPay::charge(Some(sub(1_000)), 4_600, None).unwrap();
    assert_eq!(charged.last_charged, 4_600);
    assert_eq!(charged.amount, 100);
    assert!(charged.active);
}

#[test]
fn charge_refusals() {
    assert_eq!(
        FlowPay::charge::<&str>(None, 10, None),
        Err(Refusal::Code(ContractError::NoSubscriptionFound))
    );
    let mut s = sub(1_000);
    s.active = false;
    assert_eq!(FlowPay::charge(Some(s), 10_000, None), Err(Refusal::SubscriptionNotActive));
    let mut s = sub(1_000);
    s.paused = true;
    assert_eq!(FlowPay::charge(Some(s), 10_000, None), Err(Refusal::SubscriptionPaused));
    assert_eq!(
        FlowPay::charge(Some(sub(1_000)), 4_599, None),
        Err(Refusal::Code(ContractError::IntervalNotElapsed))
    );
    assert_eq!(
        FlowPay::charge(Some(sub(1_000)), 4_701, Some(100)),
        Err(Refusal::Code(ContractError::GracePeriodElapsed))
    );
    assert!(FlowPay::charge(Some(sub(1_000)), 4_700, Some(100)).is_ok());
    assert!(FlowPay::charge(Some(sub(1_000)), 1_000_000, Some(0)).is_ok());
    assert_eq!(
        FlowPay::charge(Some(sub(u64::MAX - 10)), u64::MAX, None),
        Err(Refusal::ArithmeticOverflow)
    );
}

#[test]
fn charge_cannot_repeat_within_interval() {
    let charged = FlowPay::charge(Some(sub(0)), 3_600, None).unwrap();
    assert_eq!(
        FlowPay::charge(Some(charged), 3_600, None),
        Err(Refusal::Code(ContractError::IntervalNotElapsed))
    );
}

#[test]
fn pay_per_use_within_limit() {
    let p = FlowPay::pay_per_use(Some(sub(0)), 40, Some(100), 50).unwrap();
    assert_eq!(p.merchant, "merchant");
    assert_eq!(p.token, "token");
    assert_eq!(p.amount, 40);
    assert_eq!(p.spent_today, 90);
    assert_eq!(
        FlowPay::pay_per_use(Some(sub(0)), 51, Some(100), 50),
        Err(Refusal::DailyLimitExceeded)
    );
    assert_eq!(FlowPay::pay_per_use(Some(sub(0)), 51, None, 50).unwrap().spent_today, 101);
}

#[test]
fn pay_per_use_refusals() {
    assert_eq!(FlowPay::pay_per_use(Some(sub(0)), 0, None, 0), Err(Refusal::AmountNotPositive));
    assert_eq!(
        FlowPay::pay_per_use::<&str>(None, 5, None, 0),
        Err(Refusal::NoSubscription)
    );
    let mut s = sub(0);
    s.paused = true;
    assert_eq!(FlowPay::pay_per_use(Some(s), 5, None, 0), Err(Refusal::SubscriptionPaused));
    assert_eq!(
        FlowPay::pay_per_use(Some(sub(0)), 5, None, i128::MAX),
        Err(Refusal::ArithmeticOverflow)
    );
}

#[test]
fn cancel_marks_inactive_and_blocks_everything() {
    let c = FlowPay::cancel(Some(sub(0)), 3).unwrap();
    assert_eq!(c.active_count, 2);
    let cancelled = c.subscription;
    assert!(!cancelled.active);
    let again = FlowPay::cancel(Some(cancelled.clone()), 2).unwrap();
    assert_eq!(again.active_count, 2);
    assert_eq!(again.subscription, cancelled);
    assert_eq!(FlowPay::cancel(Some(sub(0)), 0).unwrap().active_count, 0);
    assert_eq!(FlowPay::next_charge_at(&Some(cancelled.clone())), Ok(None));
    assert_eq!(
        FlowPay::charge(Some(cancelled.clone()), 99_999, None),
        Err(Refusal::SubscriptionNotActive)
    );
    assert_eq!(FlowPay::pause(Some(cancelled.clone())), Err(Refusal::SubscriptionNotActive));
    assert_eq!(FlowPay::resume(Some(cancelled.clone())), Err(Refusal::SubscriptionNotActive));
    assert_eq!(
        FlowPay::pay_per_use(Some(cancelled), 1, None, 0),
        Err(Refusal::SubscriptionNotActive)
    );
    assert_eq!(FlowPay::cancel::<&str>(None, 5), Err(Refusal::NoSubscription));
}

#[test]
fn pause_then_resume_restores_subscription() {
    let paused = FlowPay::pause(Some(sub(7))).unwrap();
    assert!(paused.paused);
    assert_eq!(FlowPay::charge(Some(paused.clone()), 99_999, None), Err(Refusal::SubscriptionPaused));
    let resumed = FlowPay::resume(Some(paused)).unwrap();
    assert_eq!(resumed, sub(7));
    assert_eq!(FlowPay::pause::<&str>(None), Err(Refusal::NoSubscription));
}

#[test]
fn next_charge_at_cases() {
    assert_eq!(FlowPay::next_charge_at::<&str>(&None), Ok(None));
    assert_eq!(FlowPay::next_charge_at(&Some(sub(100))), Ok(Some(3_700)));
    assert_eq!(
        FlowPay::next_charge_at(&Some(sub(u64::MAX))),
        Err(Refusal::ArithmeticOverflow)
    );
}

#[test]
fn trial_ends_after_first_charge() {
    assert_eq!(FlowPay::get_trial_end(&Some(sub(2_000)), 1_999), Some(2_000));
    assert_eq!(FlowPay::get_trial_end(&Some(sub(2_000)), 2_000), None);
    assert_eq!(FlowPay::get_trial_end::<&str>(&None, 0), None);
}
