use flowpay::{ChargeResult, ContractError, FlowPay, MerchantRevenue, Refusal, Registration, Subscription};

#[test]
fn error_codes() {
    assert_eq!(ContractError::AlreadyInitialized.code(), 1);
    assert_eq!(ContractError::NoSubscriptionFound.code(), 4);
    assert_eq!(ContractError::MerchantNotWhitelisted.code(), 10);
    assert_eq!(ContractError::IntervalTooShort.code(), 27);
    assert!(ContractError::AlreadyInitialized < ContractError::IntervalTooShort);
}

#[test]
fn refusal_messages() {
    assert_eq!(Refusal::Code(ContractError::IntervalNotElapsed).message(), None);
    assert_eq!(
        Refusal::Code(ContractError::IntervalNotElapsed).error(),
        Some(ContractError::IntervalNotElapsed)
    );
    assert_eq!(Refusal::AmountNotPositive.message(), Some("amount must be positive"));
    assert_eq!(Refusal::NoSubscription.message(), Some("no subscription found"));
    assert_eq!(Refusal::AlreadyInitialized.error(), None);
}

#[test]
fn initialize_only_once() {
    assert_eq!(FlowPay::initialize(false, 7u32), Ok(7));
    assert_eq!(FlowPay::initialize(true, 7u32), Err(Refusal::AlreadyInitialized));
    assert_eq!(FlowPay::set_initial_admin(false, 9u32), Ok(9));
    assert_eq!(FlowPay::set_initial_admin(true, 9u32), Err(Refusal::AdminAlreadySet));
}

#[test]
fn settings_validation() {
    assert_eq!(FlowPay::set_min_interval(0), Err(Refusal::MinIntervalNotPositive));
    assert_eq!(FlowPay::set_min_interval(60), Ok(60));
    assert_eq!(FlowPay::set_daily_limit(0), Err(Refusal::LimitNotPositive));
    assert_eq!(FlowPay::set_daily_limit(-3), Err(Refusal::LimitNotPositive));
    assert_eq!(FlowPay::set_daily_limit(500), Ok(500));
    assert_eq!(FlowPay::get_daily_spent(None), 0);
    assert_eq!(FlowPay::get_daily_spent(Some(12)), 12);
}

#[test]
fn migrate_is_idempotent() {
    assert_eq!(FlowPay::get_schema_version(None), 0);
    assert_eq!(FlowPay::migrate(None), Some(1));
    assert_eq!(FlowPay::migrate(Some(1)), None);
    assert_eq!(FlowPay::migrate(Some(0)), Some(1));
    assert_eq!(FlowPay::migrate(Some(5)), None);
}

#[test]
fn health_check() {
    let r = FlowPay::contract_health_check(None, true, true, 17_281, Some(3), Some(1));
    assert!(r.is_healthy);
    assert!(!r.contract_paused);
    assert_eq!(r.active_subscription_count, 3);
    assert_eq!(r.schema_version, 1);
    assert_eq!(r.instance_ttl_ledgers, 17_281);
    assert!(!FlowPay::contract_health_check(None, true, true, 17_280, None, None).is_healthy);
    assert!(!FlowPay::contract_health_check(Some(true), true, true, 99_999, None, None).is_healthy);
    assert!(!FlowPay::contract_health_check(None, false, true, 99_999, None, None).is_healthy);
    let r = FlowPay::contract_health_check(Some(false), true, false, 99_999, None, None);
    assert!(!r.is_healthy);
    assert_eq!(r.active_subscription_count, 0);
    assert_eq!(r.schema_version, 0);
    assert!(!FlowPay::is_contract_paused(None));
}

#[test]
fn counting_subscribers() {
    assert_eq!(FlowPay::get_active_count(None), 0);
    assert_eq!(FlowPay::get_subscriber_count(Some(4)), 4);
    assert_eq!(
        FlowPay::register_subscriber(2, 5, true, true),
        Ok(Registration { active_count: 3, slot: Some(5), index_size: 6 })
    );
    assert_eq!(
        FlowPay::register_subscriber(2, 5, true, false),
        Ok(Registration { active_count: 3, slot: None, index_size: 5 })
    );
    assert_eq!(
        FlowPay::register_subscriber(2, 5, false, false),
        Ok(Registration { active_count: 2, slot: None, index_size: 5 })
    );
    assert_eq!(
        FlowPay::register_subscriber(u64::MAX, 5, true, true),
        Err(Refusal::ArithmeticOverflow)
    );
    assert_eq!(
        FlowPay::register_subscriber(u64::MAX, 5, false, true),
        Ok(Registration { active_count: u64::MAX, slot: Some(5), index_size: 6 })
    );
    assert_eq!(
        FlowPay::register_subscriber(1, u64::MAX, true, true),
        Err(Refusal::ArithmeticOverflow)
    );
}

#[test]
fn subscriber_page_window() {
    assert_eq!(FlowPay::subscriber_page_window(10, 2, 3), Ok((2, 5)));
    assert_eq!(FlowPay::subscriber_page_window(10, 8, 3), Ok((8, 10)));
    assert_eq!(FlowPay::subscriber_page_window(200, 0, 1_000), Ok((0, 50)));
    assert_eq!(FlowPay::subscriber_page_window(10, 10, 3), Ok((10, 10)));
    assert_eq!(FlowPay::subscriber_page_window(10, 2, 0), Ok((2, 2)));
    assert_eq!(
        FlowPay::subscriber_page_window(u64::MAX, u64::MAX - 1, 5),
        Err(Refusal::ArithmeticOverflow)
    );
}

#[test]
fn subscriber_page_skips_empty_slots() {
    let page = FlowPay::get_subscriber_page(vec![Some(1u32), None, Some(3), None]);
    assert_eq!(page, vec![1, 3]);
    assert!(FlowPay::get_subscriber_page::<u32>(vec![]).is_empty());
}

#[test]
fn charge_history_keeps_last_twelve() {
    let mut h: Vec<u64> = Vec::new();
    for t in 1..=15u64 {
        h = FlowPay::record_charge(&h, t);
    }
    assert_eq!(h, (4..=15).collect::<Vec<u64>>());
    assert_eq!(FlowPay::record_charge(&vec![1, 2], 3), vec![1, 2, 3]);
}

#[test]
fn revenue_accounting() {
    let rev = MerchantRevenue { total: 100, day_total: 10, history: vec![100] };
    let rev = FlowPay::credit_revenue(rev, 25).unwrap();
    assert_eq!(rev, MerchantRevenue { total: 125, day_total: 35, history: vec![100, 25] });
    let over = MerchantRevenue { total: i128::MAX, day_total: 0, history: vec![] };
    assert_eq!(FlowPay::credit_revenue(over, 1), Err(Refusal::ArithmeticOverflow));
    assert_eq!(FlowPay::get_merchant_revenue(None), 0);
    assert_eq!(FlowPay::get_merchant_revenue(Some(5)), 5);
    assert_eq!(FlowPay::revenue_day(86_399), 0);
    assert_eq!(FlowPay::revenue_day(86_400 * 3 + 5), 3);
}

#[test]
fn revenue_history_tail() {
    let h = vec![1i128, 2, 3, 4, 5];
    assert_eq!(FlowPay::get_merchant_revenue_history(&h, 2), vec![4, 5]);
    assert_eq!(FlowPay::get_merchant_revenue_history(&h, 9), h);
    assert!(FlowPay::get_merchant_revenue_history(&h, 0).is_empty());
    assert!(FlowPay::get_merchant_revenue_history(&vec![], 3).is_empty());
}

#[test]
fn batch_results() {
    let s = Subscription {
        merchant: 1u8,
        amount: 5,
        interval: 10,
        last_charged: 0,
        active: true,
        paused: false,
        token: 2u8,
    };
    assert_eq!(FlowPay::charge_result(&FlowPay::charge(Some(s.clone()), 10, None)), ChargeResult::Charged);
    assert_eq!(FlowPay::charge_result(&FlowPay::charge(Some(s.clone()), 9, None)), ChargeResult::IntervalNotElapsed);
    assert_eq!(FlowPay::charge_result(&FlowPay::charge::<u8>(None, 9, None)), ChargeResult::NoSubscription);
    assert_eq!(FlowPay::charge_result(&FlowPay::charge(Some(s.clone()), 100, Some(5))), ChargeResult::GracePeriodElapsed);
    let mut p = s.clone();
    p.paused = true;
    assert_eq!(FlowPay::charge_result(&FlowPay::charge(Some(p), 10, None)), ChargeResult::Paused);
    let mut c = s.clone();
    c.active = false;
    assert_eq!(FlowPay::charge_result(&FlowPay::charge(Some(c), 10, None)), ChargeResult::Inactive);
    let mut o = s;
    o.last_charged = u64::MAX;
    assert_eq!(FlowPay::charge_result(&FlowPay::charge(Some(o), 10, None)), ChargeResult::Failed);
}

#[test]
fn revenue_is_sum_of_credits() {
    let mut rev = MerchantRevenue { total: 0, day_total: 0, history: vec![] };
    for a in [5i128, 7, 11] {
        rev = FlowPay::credit_revenue(rev, a).unwrap();
    }
    assert_eq!(rev.total, 23);
    assert_eq!(rev.day_total, 23);
    assert_eq!(rev.history, vec![5, 7, 11]);
}

