use vstd::prelude::*;

use crate::contract::FlowPay;
use crate::errors::{ContractError, Refusal};

verus! {

/// The minimum subscription interval, in seconds, while none is configured.
pub const DEFAULT_MIN_INTERVAL: u64 = 3600;

/// A subscriber's recurring payment plan.  `A` identifies accounts.
#[derive(Clone, Debug, PartialEq, Eq)]
pub struct Subscription<A> {
    pub merchant: A,
    pub amount: i128,
    pub interval: u64,
    pub last_charged: u64,
    pub active: bool,
    pub paused: bool,
    pub token: A,
}

/// What `subscribe` reads from the ledger and the environment.
#[derive(Clone, Copy, Debug, PartialEq, Eq)]
pub struct SubscribeContext {
    /// Whether the merchant whitelist is enforced.
    pub whitelist_enabled: bool,
    /// Whether the merchant is on the whitelist.
    pub merchant_whitelisted: bool,
    /// The configured minimum interval, if any.
    pub min_interval: Option<u64>,
    /// What the subscriber allows this contract to spend of the token.
    pub allowance: i128,
    /// The ledger time, in seconds.
    pub now: u64,
    /// The `active` flag of the subscriber's current subscription, if there is one.
    pub existing_active: Option<bool>,
}

/// What a successful `subscribe` writes.
#[derive(Clone, Debug, PartialEq, Eq)]
pub struct SubscribePlan<A> {
    /// The subscriber's new subscription.
    pub subscription: Subscription<A>,
    /// Whether the subscriber joins the active count: it had no active subscription.
    pub counted: bool,
    /// Whether the subscriber joins the subscriber index: it had no stored
    /// subscription at all, so each subscriber is indexed once.
    pub indexed: bool,
}

/// What a successful `cancel` writes.
#[derive(Clone, Debug, PartialEq, Eq)]
pub struct Cancellation<A> {
    /// The subscription, now inactive.
    pub subscription: Subscription<A>,
    /// The active count after the cancellation.
    pub active_count: u64,
}

/// What a successful `pay_per_use` transfers and records.
#[derive(Clone, Debug, PartialEq, Eq)]
pub struct Payment<A> {
    pub merchant: A,
    pub token: A,
    pub amount: i128,
    /// The subscriber's spending today, this payment included.
    pub spent_today: i128,
}

pub open spec fn effective_min_interval(stored: Option<u64>) -> u64 {
    match stored {
        Some(v) => v,
        None => DEFAULT_MIN_INTERVAL,
    }
}

pub open spec fn effective_grace_period(stored: Option<u64>) -> u64 {
    match stored {
        Some(v) => v,
        None => 0,
    }
}

/// The refusal, if any, of the subscription terms, judged before the token
/// allowance is consulted.
pub open spec fn terms_refusal(
    whitelist_enabled: bool,
    merchant_whitelisted: bool,
    amount: i128,
    interval: u64,
    min_interval: Option<u64>,
) -> Option<Refusal> {
    if whitelist_enabled && !merchant_whitelisted {
        Some(Refusal::Code(ContractError::MerchantNotWhitelisted))
    } else if amount <= 0 {
        Some(Refusal::AmountNotPositive)
    } else if interval == 0 {
        Some(Refusal::IntervalNotPositive)
    } else if interval < effective_min_interval(min_interval) {
        Some(Refusal::Code(ContractError::IntervalTooShort))
    } else {
        None
    }
}

/// The first payment date of a new subscription: after the trial, if any.
pub open spec fn first_charge_base(now: u64, trial_period: Option<u64>) -> int {
    match trial_period {
        Some(p) => now + p,
        None => now as int,
    }
}

/// The subscription that `subscribe` creates.
pub open spec fn new_subscription<A>(
    merchant: A,
    amount: i128,
    interval: u64,
    token: A,
    trial_period: Option<u64>,
    now: u64,
) -> Subscription<A> {
    Subscription {
        merchant,
        amount,
        interval,
        last_charged: first_charge_base(now, trial_period) as u64,
        active: true,
        paused: false,
        token,
    }
}

pub open spec fn subscribe_refusal(
    amount: i128,
    interval: u64,
    trial_period: Option<u64>,
    ctx: SubscribeContext,
) -> Option<Refusal> {
    let t = terms_refusal(
        ctx.whitelist_enabled,
        ctx.merchant_whitelisted,
        amount,
        interval,
        ctx.min_interval,
    );
    if t is Some {
        t
    } else if ctx.allowance < amount {
        Some(Refusal::InsufficientAllowance)
    } else if first_charge_base(ctx.now, trial_period) > u64::MAX {
        Some(Refusal::ArithmeticOverflow)
    } else {
        None
    }
}

/// The refusal, if any, of charging `sub` at time `now`.
pub open spec fn charge_refusal<A>(sub: Option<Subscription<A>>, now: u64, grace: u64) -> Option<
    Refusal,
> {
    match sub {
        None => Some(Refusal::Code(ContractError::NoSubscriptionFound)),
        Some(s) => if !s.active {
            Some(Refusal::SubscriptionNotActive)
        } else if s.paused {
            Some(Refusal::SubscriptionPaused)
        } else if s.last_charged + s.interval > u64::MAX {
            Some(Refusal::ArithmeticOverflow)
        } else if now < s.last_charged + s.interval {
            Some(Refusal::Code(ContractError::IntervalNotElapsed))
        } else if grace > 0 && s.last_charged + s.interval + grace > u64::MAX {
            Some(Refusal::ArithmeticOverflow)
        } else if grace > 0 && now > s.last_charged + s.interval + grace {
            Some(Refusal::Code(ContractError::GracePeriodElapsed))
        } else {
            None
        },
    }
}

/// The refusal, if any, of a one-off payment of `amount` under `sub`.
pub open spec fn payment_refusal<A>(
    sub: Option<Subscription<A>>,
    amount: i128,
    daily_limit: Option<i128>,
    spent_today: i128,
) -> Option<Refusal> {
    if amount <= 0 {
        Some(Refusal::AmountNotPositive)
    } else {
        match sub {
            None => Some(Refusal::NoSubscription),
            Some(s) => if !s.active {
                Some(Refusal::SubscriptionNotActive)
            } else if s.paused {
                Some(Refusal::SubscriptionPaused)
            } else if spent_today + amount > i128::MAX || spent_today + amount < i128::MIN {
                Some(Refusal::ArithmeticOverflow)
            } else if daily_limit matches Some(l) && spent_today + amount > l {
                Some(Refusal::DailyLimitExceeded)
            } else {
                None
            },
        }
    }
}

/// The refusal, if any, of pausing or resuming `sub`.
pub open spec fn toggle_refusal<A>(sub: Option<Subscription<A>>) -> Option<Refusal> {
    match sub {
        None => Some(Refusal::NoSubscription),
        Some(s) => if !s.active {
            Some(Refusal::SubscriptionNotActive)
        } else {
            None
        },
    }
}

/// The active count after cancelling a subscription that was, or was not,
/// active; it never drops below zero.
pub open spec fn count_after_cancel(count: u64, was_active: bool) -> u64 {
    if was_active && count > 0 {
        (count - 1) as u64
    } else {
        count
    }
}

pub open spec fn with_last_charged<A>(s: Subscription<A>, t: u64) -> Subscription<A> {
    Subscription {
        merchant: s.merchant,
        amount: s.amount,
        interval: s.interval,
        last_charged: t,
        active: s.active,
        paused: s.paused,
        token: s.token,
    }
}

pub open spec fn with_active<A>(s: Subscription<A>, active: bool) -> Subscription<A> {
    Subscription {
        merchant: s.merchant,
        amount: s.amount,
        interval: s.interval,
        last_charged: s.last_charged,
        active,
        paused: s.paused,
        token: s.token,
    }
}

pub open spec fn with_paused<A>(s: Subscription<A>, paused: bool) -> Subscription<A> {
    Subscription {
        merchant: s.merchant,
        amount: s.amount,
        interval: s.interval,
        last_charged: s.last_charged,
        active: s.active,
        paused,
        token: s.token,
    }
}

pub open spec fn next_charge_time<A>(sub: Option<Subscription<A>>) -> Result<Option<u64>, Refusal> {
    match sub {
        None => Ok(None),
        Some(s) => if !s.active {
            Ok(None)
        } else if s.last_charged + s.interval > u64::MAX {
            Err(Refusal::ArithmeticOverflow)
        } else {
            Ok(Some((s.last_charged + s.interval) as u64))
        },
    }
}

pub open spec fn trial_end<A>(sub: Option<Subscription<A>>, now: u64) -> Option<u64> {
    match sub {
        Some(s) => if s.active && now < s.last_charged {
            Some(s.last_charged)
        } else {
            None
        },
        None => None,
    }
}

impl FlowPay {
    /// The minimum interval in force, given the configured one if any:
    /// one hour while none is configured.
    pub fn get_min_interval(stored: Option<u64>) -> (v: u64)
        ensures
            v == effective_min_interval(stored),
    {
        match stored {
            Some(v) => v,
            None => DEFAULT_MIN_INTERVAL,
        }
    }

    /// The grace period in force, given the configured one if any: none
    /// while none is configured.
    pub fn get_grace_period(stored: Option<u64>) -> (v: u64)
        ensures
            v == effective_grace_period(stored),
    {
        match stored {
            Some(v) => v,
            None => 0,
        }
    }

    /// Judges the subscription terms, before the token allowance is consulted.
    pub fn check_terms(
        whitelist_enabled: bool,
        merchant_whitelisted: bool,
        amount: i128,
        interval: u64,
        min_interval: Option<u64>,
    ) -> (res: Result<(), Refusal>)
        ensures
            match res {
                Ok(()) => terms_refusal(
                    whitelist_enabled,
                    merchant_whitelisted,
                    amount,
                    interval,
                    min_interval,
                ) is None,
                Err(r) => terms_refusal(
                    whitelist_enabled,
                    merchant_whitelisted,
                    amount,
                    interval,
                    min_interval,
                ) == Some(r),
            },
    {
        if whitelist_enabled && !merchant_whitelisted {
            Err(Refusal::Code(ContractError::MerchantNotWhitelisted))
        } else if amount <= 0 {
            Err(Refusal::AmountNotPositive)
        } else if interval == 0 {
            Err(Refusal::IntervalNotPositive)
        } else if interval < Self::get_min_interval(min_interval) {
            Err(Refusal::Code(ContractError::IntervalTooShort))
        } else {
            Ok(())
        }
    }

    /// Creates or replaces the subscriber's subscription.  The first charge
    /// falls due one interval after the trial period, if any, else one
    /// interval from now.  The subscriber joins the active count unless it
    /// already had an active subscription, and joins the subscriber index
    /// unless a subscription of its was already stored.
    pub fn subscribe<A>(
        merchant: A,
        amount: i128,
        interval: u64,
        token: A,
        trial_period: Option<u64>,
        ctx: SubscribeContext,
    ) -> (res: Result<SubscribePlan<A>, Refusal>)
        ensures
            match res {
                Ok(plan) => {
                    &&& subscribe_refusal(amount, interval, trial_period, ctx) is None
                    &&& plan.subscription == new_subscription(
                        merchant,
                        amount,
                        interval,
                        token,
                        trial_period,
                        ctx.now,
                    )
                    &&& plan.counted == (ctx.existing_active != Some(true))
                    &&& plan.indexed == (ctx.existing_active is None)
                },
                Err(r) => subscribe_refusal(amount, interval, trial_period, ctx) == Some(r),
            },
    {
        Self::check_terms(
            ctx.whitelist_enabled,
            ctx.merchant_whitelisted,
            amount,
            interval,
            ctx.min_interval,
        )?;
        if ctx.allowance < amount {
            return Err(Refusal::InsufficientAllowance);
        }
        let last_charged = match trial_period {
            Some(period) => match ctx.now.checked_add(period) {
                Some(t) => t,
                None => return Err(Refusal::ArithmeticOverflow),
            },
            None => ctx.now,
        };
        let indexed = ctx.existing_active.is_none();
        let counted = match ctx.existing_active {
            Some(active) => !active,
            None => true,
        };
        Ok(
            SubscribePlan {
                subscription: Subscription {
                    merchant,
                    amount,
                    interval,
                    last_charged,
                    active: true,
                    paused: false,
                    token,
                },
                counted,
                indexed,
            },
        )
    }
    /// Charges one interval's payment: the subscription must exist, be
    /// active and not paused, its interval must have elapsed since the last
    /// charge, and, where a grace period is set, the charge must come no
    /// later than the grace period after that.  On success the payment of
    /// `amount` from the subscriber to the merchant falls due and the
    /// subscription is returned with `last_charged` set to `now`.
    pub fn charge<A>(sub: Option<Subscription<A>>, now: u64, grace_period: Option<u64>) -> (res:
        Result<Subscription<A>, Refusal>)
        ensures
            match res {
                Ok(s) => {
                    &&& charge_refusal(sub, now, effective_grace_period(grace_period)) is None
                    &&& s == with_last_charged(sub->0, now)
                    &&& s.merchant == sub->0.merchant
                    &&& s.token == sub->0.token
                    &&& s.amount == sub->0.amount
                    &&& s.last_charged == now
                },
                Err(r) => charge_refusal(sub, now, effective_grace_period(grace_period)) == Some(
                    r,
                ),
            },
    {
        let grace = Self::get_grace_period(grace_period);
        match sub {
            None => Err(Refusal::Code(ContractError::NoSubscriptionFound)),
            Some(s) => {
                if !s.active {
                    return Err(Refusal::SubscriptionNotActive);
                }
                if s.paused {
                    return Err(Refusal::SubscriptionPaused);
                }
                let due = match s.last_charged.checked_add(s.interval) {
                    Some(d) => d,
                    None => return Err(Refusal::ArithmeticOverflow),
                };
                if now < due {
                    return Err(Refusal::Code(ContractError::IntervalNotElapsed));
                }
                if grace > 0 {
                    let deadline = match due.checked_add(grace) {
                        Some(d) => d,
                        None => return Err(Refusal::ArithmeticOverflow),
                    };
                    if now > deadline {
                        return Err(Refusal::Code(ContractError::GracePeriodElapsed));
                    }
                }
                Ok(
                    Subscription {
                        merchant: s.merchant,
                        amount: s.amount,
                        interval: s.interval,
                        last_charged: now,
                        active: s.active,
                        paused: s.paused,
                        token: s.token,
                    },
                )
            },
        }
    }

    /// A one-off payment of `amount` under the subscriber's subscription,
    /// within the subscriber's daily limit if one is set.  On success the
    /// payment to the merchant falls due and today's spending grows by
    /// `amount`; the subscription itself is unchanged.
    pub fn pay_per_use<A>(
        sub: Option<Subscription<A>>,
        amount: i128,
        daily_limit: Option<i128>,
        spent_today: i128,
    ) -> (res: Result<Payment<A>, Refusal>)
        ensures
            match res {
                Ok(p) => {
                    &&& payment_refusal(sub, amount, daily_limit, spent_today) is None
                    &&& p.merchant == sub->0.merchant
                    &&& p.token == sub->0.token
                    &&& p.amount == amount
                    &&& p.spent_today == spent_today + amount
                },
                Err(r) => payment_refusal(sub, amount, daily_limit, spent_today) == Some(r),
            },
    {
        if amount <= 0 {
            return Err(Refusal::AmountNotPositive);
        }
        match sub {
            None => Err(Refusal::NoSubscription),
            Some(s) => {
                if !s.active {
                    return Err(Refusal::SubscriptionNotActive);
                }
                if s.paused {
                    return Err(Refusal::SubscriptionPaused);
                }
                let spent = match spent_today.checked_add(amount) {
                    Some(v) => v,
                    None => return Err(Refusal::ArithmeticOverflow),
                };
                match daily_limit {
                    Some(limit) => {
                        if spent > limit {
                            return Err(Refusal::DailyLimitExceeded);
                        }
                    },
                    None => {},
                }
                Ok(Payment { merchant: s.merchant, token: s.token, amount, spent_today: spent })
            },
        }
    }

    /// Cancels the subscription: it stays stored, marked inactive.  The
    /// active count drops by one only if the subscription was active.
    pub fn cancel<A>(sub: Option<Subscription<A>>, active_count: u64) -> (res: Result<
        Cancellation<A>,
        Refusal,
    >)
        ensures
            match sub {
                None => res == Err::<Cancellation<A>, Refusal>(Refusal::NoSubscription),
                Some(s) => res == Ok::<Cancellation<A>, Refusal>(
                    Cancellation {
                        subscription: with_active(s, false),
                        active_count: count_after_cancel(active_count, s.active),
                    },
                ),
            },
    {
        match sub {
            None => Err(Refusal::NoSubscription),
            Some(s) => {
                let count = if s.active && active_count > 0 {
                    active_count - 1
                } else {
                    active_count
                };
                Ok(
                    Cancellation {
                        subscription: Subscription {
                            merchant: s.merchant,
                            amount: s.amount,
                            interval: s.interval,
                            last_charged: s.last_charged,
                            active: false,
                            paused: s.paused,
                            token: s.token,
                        },
                        active_count: count,
                    },
                )
            },
        }
    }

    /// Pauses an active subscription: it cannot be charged until resumed.
    pub fn pause<A>(sub: Option<Subscription<A>>) -> (res: Result<Subscription<A>, Refusal>)
        ensures
            match res {
                Ok(s) => toggle_refusal(sub) is None && s == with_paused(sub->0, true),
                Err(r) => toggle_refusal(sub) == Some(r),
            },
    {
        Self::set_paused(sub, true)
    }

    /// Resumes an active subscription.
    pub fn resume<A>(sub: Option<Subscription<A>>) -> (res: Result<Subscription<A>, Refusal>)
        ensures
            match res {
                Ok(s) => toggle_refusal(sub) is None && s == with_paused(sub->0, false),
                Err(r) => toggle_refusal(sub) == Some(r),
            },
    {
        Self::set_paused(sub, false)
    }

    fn set_paused<A>(sub: Option<Subscription<A>>, paused: bool) -> (res: Result<
        Subscription<A>,
        Refusal,
    >)
        ensures
            match res {
                Ok(s) => toggle_refusal(sub) is None && s == with_paused(sub->0, paused),
                Err(r) => toggle_refusal(sub) == Some(r),
            },
    {
        match sub {
            None => Err(Refusal::NoSubscription),
            Some(s) => {
                if !s.active {
                    return Err(Refusal::SubscriptionNotActive);
                }
                Ok(
                    Subscription {
                        merchant: s.merchant,
                        amount: s.amount,
                        interval: s.interval,
                        last_charged: s.last_charged,
                        active: s.active,
                        paused,
                        token: s.token,
                    },
                )
            },
        }
    }

    /// The time of the next scheduled charge: none without a subscription
    /// or when it is cancelled, else one interval after the last charge.
    pub fn next_charge_at<A>(sub: &Option<Subscription<A>>) -> (res: Result<Option<u64>, Refusal>)
        ensures
            res == next_charge_time(*sub),
    {
        match sub {
            None => Ok(None),
            Some(s) => {
                if !s.active {
                    Ok(None)
                } else {
                    match s.last_charged.checked_add(s.interval) {
                        Some(t) => Ok(Some(t)),
                        None => Err(Refusal::ArithmeticOverflow),
                    }
                }
            },
        }
    }

    /// The end of the subscriber's trial period, while it lasts: a trial
    /// pushes the first charge base into the future, so the subscriber is
    /// in a trial while an active subscription was last charged later than now.
    pub fn get_trial_end<A>(sub: &Option<Subscription<A>>, now: u64) -> (res: Option<u64>)
        ensures
            res == trial_end(*sub, now),
    {
        match sub {
            Some(s) => {
                if s.active && now < s.last_charged {
                    Some(s.last_charged)
                } else {
                    None
                }
            },
            None => None,
        }
    }
}

} // verus!
