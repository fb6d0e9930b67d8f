//! What each of the contract's calls does, stated over its inputs and
//! results, and properties that relate several calls.
use vstd::prelude::*;

use crate::batch::{result_of, ChargeResult};
use crate::contract::{health, migration, schema_version, CURRENT_SCHEMA_VERSION};
use crate::counters::{
    page_cap, page_window, present, lemma_present_len, registration, stored_or_zero, MAX_PAGE_SIZE,
};
use crate::errors::{ContractError, Refusal};
use crate::history::{credited, keep_last, MAX_CHARGE_HISTORY};
use crate::subscription::{
    charge_refusal, first_charge_base, new_subscription, next_charge_time, payment_refusal,
    subscribe_refusal, toggle_refusal, count_after_cancel, effective_grace_period,
    effective_min_interval, trial_end, with_active, with_last_charged, with_paused,
    SubscribeContext, Subscription,
};

verus! {

/// A new subscription's first charge falls due one interval after its base
/// (the end of the trial, if any, else the time of subscribing): `next_charge_at`
/// reports that time, a charge before it is refused as too early, and a
/// charge at or after it, within the grace period if one is set, goes through.
pub proof fn law_first_charge_falls_due<A>(
    merchant: A,
    amount: i128,
    interval: u64,
    token: A,
    trial_period: Option<u64>,
    ctx: SubscribeContext,
    t: u64,
    grace: u64,
)
    requires
        subscribe_refusal(amount, interval, trial_period, ctx) is None,
        first_charge_base(ctx.now, trial_period) + interval + grace <= u64::MAX,
    ensures
        ({
            let s = new_subscription(merchant, amount, interval, token, trial_period, ctx.now);
            let due = first_charge_base(ctx.now, trial_period) + interval;
            &&& next_charge_time(Some(s)) == Ok::<Option<u64>, Refusal>(Some(due as u64))
            &&& t < due ==> charge_refusal(Some(s), t, grace) == Some(
                Refusal::Code(ContractError::IntervalNotElapsed),
            )
            &&& (due <= t && (grace == 0 || t <= due + grace)) ==> charge_refusal(
                Some(s),
                t,
                grace,
            ) is None
            &&& (grace > 0 && t > due + grace) ==> charge_refusal(Some(s), t, grace) == Some(
                Refusal::Code(ContractError::GracePeriodElapsed),
            )
        }),
{
}

/// A charge restarts the interval: once charged at `now`, the subscription
/// cannot be charged again before one more interval has passed.
pub proof fn law_charge_restarts_interval<A>(s: Subscription<A>, now: u64, t: u64, grace: u64)
    requires
        charge_refusal(Some(s), now, grace) is None,
        s.interval > 0,
        now + s.interval <= u64::MAX,
        now <= t,
        t < now + s.interval,
    ensures
        charge_refusal(Some(with_last_charged(s, now)), t, grace) == Some(
            Refusal::Code(ContractError::IntervalNotElapsed),
        ),
{
}

/// Pausing and then resuming an active, running subscription gives it back
/// unchanged; while paused, it can be neither charged nor used for payments.
pub proof fn law_pause_resume_round_trip<A>(
    s: Subscription<A>,
    now: u64,
    grace: u64,
    amount: i128,
    limit: Option<i128>,
    spent: i128,
)
    requires
        s.active,
        !s.paused,
        amount > 0,
    ensures
        toggle_refusal(Some(s)) is None,
        toggle_refusal(Some(with_paused(s, true))) is None,
        with_paused(with_paused(s, true), false) == s,
        charge_refusal(Some(with_paused(s, true)), now, grace) == Some(Refusal::SubscriptionPaused),
        payment_refusal(Some(with_paused(s, true)), amount, limit, spent) == Some(
            Refusal::SubscriptionPaused,
        ),
{
}

/// A cancelled subscription is inert: it cannot be charged, paused, resumed
/// or used for payments, and it has no next charge and no trial.
pub proof fn law_cancelled_is_inert<A>(
    s: Subscription<A>,
    now: u64,
    grace: u64,
    amount: i128,
    limit: Option<i128>,
    spent: i128,
)
    requires
        amount > 0,
    ensures
        ({
            let c = with_active(s, false);
            &&& charge_refusal(Some(c), now, grace) == Some(Refusal::SubscriptionNotActive)
            &&& payment_refusal(Some(c), amount, limit, spent) == Some(
                Refusal::SubscriptionNotActive,
            )
            &&& toggle_refusal(Some(c)) == Some(Refusal::SubscriptionNotActive)
            &&& next_charge_time(Some(c)) == Ok::<Option<u64>, Refusal>(None)
            &&& trial_end(Some(c), now) is None
        }),
{
}

/// A trial defers the first charge: right after subscribing with a trial of
/// `p > 0` seconds the subscriber is in a trial that ends at `now + p`;
/// without a trial there is none; and once charged, the trial is over.
pub proof fn law_trial_period<A>(
    merchant: A,
    amount: i128,
    interval: u64,
    token: A,
    trial_period: Option<u64>,
    ctx: SubscribeContext,
    t: u64,
)
    requires
        subscribe_refusal(amount, interval, trial_period, ctx) is None,
    ensures
        ({
            let s = new_subscription(merchant, amount, interval, token, trial_period, ctx.now);
            &&& (trial_period matches Some(p) && p > 0) ==> trial_end(Some(s), ctx.now) == Some(
                (ctx.now + trial_period->0) as u64,
            )
            &&& trial_period is None ==> trial_end(Some(s), ctx.now) is None
            &&& trial_end(Some(with_last_charged(s, t)), t) is None
        }),
{
}

/// The daily limit holds: a payment that goes through never takes today's
/// spending past the limit, and today's spending only grows.
pub proof fn law_daily_limit_respected<A>(
    s: Subscription<A>,
    amount: i128,
    limit: i128,
    spent: i128,
)
    requires
        payment_refusal(Some(s), amount, Some(limit), spent) is None,
    ensures
        spent + amount <= limit,
        spent < spent + amount,
{
}

/// Migration is idempotent: after one migration the schema is current and
/// a second migration writes nothing.
pub proof fn law_migrate_idempotent(stored: Option<u32>)
    ensures
        ({
            let after = match migration(stored) {
                Some(v) => Some(v),
                None => stored,
            };
            &&& schema_version(after) >= CURRENT_SCHEMA_VERSION
            &&& migration(after) is None
        }),
{
}

/// A page of subscribers never holds more than fifty entries, nor more
/// than the requested limit, nor any slot past the end of the index; it is
/// empty when the offset is past the end or the limit is zero.
pub proof fn law_subscriber_page_bounded<A>(
    count: u64,
    offset: u64,
    limit: u32,
    slots: Seq<Option<A>>,
)
    requires
        page_window(count, offset, limit) is Ok,
        slots.len() == page_window(count, offset, limit)->Ok_0.1 - page_window(
            count,
            offset,
            limit,
        )->Ok_0.0,
    ensures
        ({
            let (start, end) = page_window(count, offset, limit)->Ok_0;
            &&& start == offset
            &&& start <= end
            &&& end - start <= page_cap(limit) <= MAX_PAGE_SIZE
            &&& end - start <= limit
            &&& start < end ==> end <= count
            &&& (offset >= count || limit == 0) ==> start == end
            &&& present(slots).len() <= end - start
        }),
{
    lemma_present_len(slots);
}

/// The charge history keeps at most twelve entries, ends with the newest
/// charge, and keeps the older ones in their order.
pub proof fn law_charge_history_bounded(history: Seq<u64>, at: u64)
    ensures
        ({
            let h = keep_last(history.push(at), MAX_CHARGE_HISTORY as nat);
            &&& h.len() <= MAX_CHARGE_HISTORY
            &&& h.len() > 0 && h.last() == at
            &&& h.drop_last() == keep_last(history, (h.len() - 1) as nat)
        }),
{
    let h = keep_last(history.push(at), MAX_CHARGE_HISTORY as nat);
    assert(h.drop_last() =~= keep_last(history, (h.len() - 1) as nat));
}

/// Merchant revenue adds up: crediting two payments in turn raises the
/// total and the day's total by their sum, and the history records both,
/// in order.
pub proof fn law_revenue_adds_up(total: i128, day: i128, history: Seq<i128>, a: i128, b: i128)
    requires
        credited(total, day, history, a) is Some,
        credited(
            credited(total, day, history, a).unwrap().0 as i128,
            credited(total, day, history, a).unwrap().1 as i128,
            credited(total, day, history, a).unwrap().2,
            b,
        ) is Some,
    ensures
        ({
            let first = credited(total, day, history, a)->0;
            let second = credited(first.0 as i128, first.1 as i128, first.2, b)->0;
            &&& second.0 == total + a + b
            &&& second.1 == day + a + b
            &&& second.2 == history.push(a).push(b)
        }),
{
}

/// The subscribers whose subscription is active.
pub open spec fn active_subscribers<A>(subs: Map<A, Subscription<A>>) -> Set<A> {
    subs.dom().filter(|u: A| subs[u].active)
}

proof fn lemma_active_after_store<A>(subs: Map<A, Subscription<A>>, user: A, s: Subscription<A>)
    requires
        subs.dom().finite(),
    ensures
        active_subscribers(subs).finite(),
        active_subscribers(subs.insert(user, s)) == (if s.active {
            active_subscribers(subs).insert(user)
        } else {
            active_subscribers(subs).remove(user)
        }),
{
    assert(active_subscribers(subs) =~= subs.dom().intersect(Set::new(|u: A| subs[u].active)));
    if s.active {
        assert(active_subscribers(subs.insert(user, s)) =~= active_subscribers(subs).insert(user));
    } else {
        assert(active_subscribers(subs.insert(user, s)) =~= active_subscribers(subs).remove(user));
    }
}

/// The active count follows subscribing: when it equals the number of
/// active subscriptions, it still does after `subscribe` stores the new
/// subscription and counts the subscriber as the plan says.
pub proof fn law_active_count_after_subscribe<A>(
    subs: Map<A, Subscription<A>>,
    count: nat,
    user: A,
    merchant: A,
    amount: i128,
    interval: u64,
    token: A,
    trial_period: Option<u64>,
    ctx: SubscribeContext,
)
    requires
        subs.dom().finite(),
        count == active_subscribers(subs).len(),
        ctx.existing_active == (if subs.dom().contains(user) {
            Some(subs[user].active)
        } else {
            None
        }),
        subscribe_refusal(amount, interval, trial_period, ctx) is None,
    ensures
        ({
            let s = new_subscription(merchant, amount, interval, token, trial_period, ctx.now);
            let counted = ctx.existing_active != Some(true);
            active_subscribers(subs.insert(user, s)).len() == count + (if counted {
                1nat
            } else {
                0nat
            })
        }),
{
    let s = new_subscription(merchant, amount, interval, token, trial_period, ctx.now);
    lemma_active_after_store(subs, user, s);
}

/// The active count follows cancelling: when it equals the number of
/// active subscriptions, it still does after `cancel` stores the cancelled
/// subscription and the count it computes, whether or not the subscription
/// was active.
pub proof fn law_active_count_after_cancel<A>(subs: Map<A, Subscription<A>>, count: u64, user: A)
    requires
        subs.dom().finite(),
        count == active_subscribers(subs).len(),
        subs.dom().contains(user),
    ensures
        active_subscribers(subs.insert(user, with_active(subs[user], false))).len()
            == count_after_cancel(count, subs[user].active),
{
    lemma_active_after_store(subs, user, with_active(subs[user], false));
    if subs[user].active {
        assert(active_subscribers(subs).contains(user));
    } else {
        assert(!active_subscribers(subs).contains(user));
    }
}

/// The subscriber index counts each subscriber once: subscriptions are never
/// removed, so when the index size equals the number of subscribers with a
/// stored subscription, it still does after `subscribe` stores one and
/// indexes the subscriber as the plan says; and it never shrinks.
pub proof fn law_subscriber_index_counts_users<A>(
    subs: Map<A, Subscription<A>>,
    index_size: nat,
    user: A,
    merchant: A,
    amount: i128,
    interval: u64,
    token: A,
    trial_period: Option<u64>,
    ctx: SubscribeContext,
)
    requires
        subs.dom().finite(),
        index_size == subs.dom().len(),
        ctx.existing_active == (if subs.dom().contains(user) {
            Some(subs[user].active)
        } else {
            None
        }),
        subscribe_refusal(amount, interval, trial_period, ctx) is None,
    ensures
        ({
            let s = new_subscription(merchant, amount, interval, token, trial_period, ctx.now);
            let indexed = ctx.existing_active is None;
            &&& subs.insert(user, s).dom().len() == index_size + (if indexed {
                1nat
            } else {
                0nat
            })
            &&& subs.insert(user, s).dom().len() >= index_size
        }),
{
    let s = new_subscription(merchant, amount, interval, token, trial_period, ctx.now);
    if subs.dom().contains(user) {
        assert(subs.insert(user, s).dom() =~= subs.dom());
    } else {
        assert(subs.insert(user, s).dom() =~= subs.dom().insert(user));
    }
}

/// Charging, pausing and resuming leave the set of active subscriptions,
/// and so the active count, unchanged.
pub proof fn law_active_count_kept<A>(subs: Map<A, Subscription<A>>, user: A, now: u64, paused: bool)
    requires
        subs.dom().finite(),
        subs.dom().contains(user),
    ensures
        active_subscribers(subs.insert(user, with_last_charged(subs[user], now)))
            == active_subscribers(subs),
        active_subscribers(subs.insert(user, with_paused(subs[user], paused)))
            == active_subscribers(subs),
{
    lemma_active_after_store(subs, user, with_last_charged(subs[user], now));
    lemma_active_after_store(subs, user, with_paused(subs[user], paused));
    if subs[user].active {
        assert(active_subscribers(subs).insert(user) =~= active_subscribers(subs));
    } else {
        assert(active_subscribers(subs).remove(user) =~= active_subscribers(subs));
    }
}

/// The sum of a run of amounts.
pub open spec fn sum_of(amounts: Seq<i128>) -> int
    decreases amounts.len(),
{
    if amounts.len() == 0 {
        0
    } else {
        sum_of(amounts.drop_last()) + amounts.last()
    }
}

/// The revenue records after crediting each payment in turn, or nothing if
/// some credit overflows.
pub open spec fn credit_all(total: i128, day: i128, history: Seq<i128>, payments: Seq<i128>) -> Option<
    (int, int, Seq<i128>),
>
    decreases payments.len(),
{
    if payments.len() == 0 {
        Some((total as int, day as int, history))
    } else {
        match credit_all(total, day, history, payments.drop_last()) {
            None => None,
            Some(c) => if i128::MIN <= c.0 <= i128::MAX && i128::MIN <= c.1 <= i128::MAX {
                credited(c.0 as i128, c.1 as i128, c.2, payments.last())
            } else {
                None
            },
        }
    }
}

/// A merchant's revenue is the sum of its payments: after crediting any run
/// of payments (every successful charge and one-off payment credits its
/// amount), the total and the day's total have grown by their sum, the
/// history has recorded them in order, and, the payments being positive,
/// the total has not decreased.  From a merchant with no revenue, the total
/// is exactly the sum of the payments.
pub proof fn law_revenue_is_sum_of_payments(
    total: i128,
    day: i128,
    history: Seq<i128>,
    payments: Seq<i128>,
)
    requires
        credit_all(total, day, history, payments) is Some,
    ensures
        ({
            let c = credit_all(total, day, history, payments)->0;
            &&& c.0 == total + sum_of(payments)
            &&& c.1 == day + sum_of(payments)
            &&& c.2 == history + payments
            &&& (forall|i: int| 0 <= i < payments.len() ==> payments[i] > 0) ==> c.0 >= total
            &&& (total == 0 && history.len() == 0) ==> (c.0 == sum_of(payments) && c.2 == payments)
        }),
    decreases payments.len(),
{
    if payments.len() == 0 {
        assert(history + payments =~= history);
    } else {
        let init = payments.drop_last();
        law_revenue_is_sum_of_payments(total, day, history, init);
        assert(history + payments =~= (history + init).push(payments.last()));
        if forall|i: int| 0 <= i < payments.len() ==> payments[i] > 0 {
            assert forall|i: int| 0 <= i < init.len() implies init[i] > 0 by {
                assert(init[i] == payments[i]);
            }
            assert(payments.last() == payments[payments.len() - 1]);
        }
    }
}

/// What a charge does.  It goes through exactly when the subscription
/// exists, is active and not paused, one interval has passed since the last
/// charge, and, where a grace period is set, no more than the grace period
/// after that; each refusal comes in that order of checks.  A charge that
/// goes through changes nothing but `last_charged`, which becomes `now`:
/// the merchant who is paid and the token that pays stay those stored.
pub proof fn law_charge_outcome<A>(sub: Option<Subscription<A>>, now: u64, grace: u64)
    ensures
        charge_refusal(sub, now, grace) is None <==> (sub is Some && sub->0.active
            && !sub->0.paused && sub->0.last_charged + sub->0.interval <= now && (grace == 0 || (
        sub->0.last_charged + sub->0.interval + grace <= u64::MAX && now <= sub->0.last_charged
            + sub->0.interval + grace))),
        sub is None ==> charge_refusal(sub, now, grace) == Some(
            Refusal::Code(ContractError::NoSubscriptionFound),
        ),
        (sub is Some && !sub->0.active) ==> charge_refusal(sub, now, grace) == Some(
            Refusal::SubscriptionNotActive,
        ),
        (sub is Some && sub->0.active && sub->0.paused) ==> charge_refusal(sub, now, grace)
            == Some(Refusal::SubscriptionPaused),
        (sub is Some && sub->0.active && !sub->0.paused && sub->0.last_charged + sub->0.interval
            <= u64::MAX && now < sub->0.last_charged + sub->0.interval) ==> charge_refusal(
            sub,
            now,
            grace,
        ) == Some(Refusal::Code(ContractError::IntervalNotElapsed)),
        (sub is Some && sub->0.active && !sub->0.paused && grace > 0 && sub->0.last_charged
            + sub->0.interval + grace <= u64::MAX && now > sub->0.last_charged + sub->0.interval
            + grace) ==> charge_refusal(sub, now, grace) == Some(
            Refusal::Code(ContractError::GracePeriodElapsed),
        ),
        sub is Some ==> ({
            let c = with_last_charged(sub->0, now);
            &&& c.merchant == sub->0.merchant
            &&& c.token == sub->0.token
            &&& c.amount == sub->0.amount
            &&& c.interval == sub->0.interval
            &&& c.active == sub->0.active
            &&& c.paused == sub->0.paused
            &&& c.last_charged == now
        }),
        effective_grace_period(None) == 0,
        effective_grace_period(Some(grace)) == grace,
{
}

/// What subscribing does.  It goes through exactly when the merchant is
/// whitelisted or the whitelist is off, the amount and the interval are
/// positive, the interval is at least the minimum (one hour unless one is
/// configured), the allowance covers one payment, and the trial's end fits
/// the clock; each refusal comes in that order of checks.  The new
/// subscription pays the given merchant the given amount in the given
/// token, is active and not paused, and was last charged at the end of the
/// trial, or now without one.
pub proof fn law_subscribe_outcome<A>(
    merchant: A,
    amount: i128,
    interval: u64,
    token: A,
    trial_period: Option<u64>,
    ctx: SubscribeContext,
)
    ensures
        ({
            let r = subscribe_refusal(amount, interval, trial_period, ctx);
            let min: int = match ctx.min_interval {
                Some(m) => m as int,
                None => 3600,
            };
            let base: int = match trial_period {
                Some(p) => ctx.now + p,
                None => ctx.now as int,
            };
            let listed = !ctx.whitelist_enabled || ctx.merchant_whitelisted;
            &&& r is None <==> (listed && amount > 0 && interval > 0 && interval >= min
                && ctx.allowance >= amount && base <= u64::MAX)
            &&& !listed ==> r == Some(Refusal::Code(ContractError::MerchantNotWhitelisted))
            &&& (listed && amount <= 0) ==> r == Some(Refusal::AmountNotPositive)
            &&& (listed && amount > 0 && interval == 0) ==> r == Some(Refusal::IntervalNotPositive)
            &&& (listed && amount > 0 && interval > 0 && interval < min) ==> r == Some(
                Refusal::Code(ContractError::IntervalTooShort),
            )
            &&& (listed && amount > 0 && interval > 0 && interval >= min && ctx.allowance
                < amount) ==> r == Some(Refusal::InsufficientAllowance)
            &&& r == Some(Refusal::InsufficientAllowance) ==> ctx.allowance < amount
            &&& (listed && amount > 0 && interval > 0 && interval >= min && ctx.allowance
                >= amount && base > u64::MAX) ==> r == Some(Refusal::ArithmeticOverflow)
            &&& (r is None ==> {
                let s = new_subscription(merchant, amount, interval, token, trial_period, ctx.now);
                &&& s.merchant == merchant
                &&& s.token == token
                &&& s.amount == amount
                &&& s.interval == interval
                &&& s.last_charged == base
                &&& s.active
                &&& !s.paused
            })
        }),
        effective_min_interval(None) == 3600,
        forall|m: u64| effective_min_interval(Some(m)) == m,
{
}

/// What a one-off payment does.  It goes through exactly when the amount
/// is positive, the subscription exists, is active and not paused, and
/// today's spending with the payment stays representable and within the
/// daily limit if one is set; the subscription's own recurring amount plays
/// no part.  Each refusal comes in that order of checks.
pub proof fn law_payment_outcome<A>(
    sub: Option<Subscription<A>>,
    amount: i128,
    daily_limit: Option<i128>,
    spent: i128,
)
    ensures
        ({
            let r = payment_refusal(sub, amount, daily_limit, spent);
            let total = spent + amount;
            let fits = i128::MIN <= total <= i128::MAX;
            &&& r is None <==> (amount > 0 && sub is Some && sub->0.active && !sub->0.paused
                && fits && (daily_limit is None || total <= daily_limit->0))
            &&& amount <= 0 ==> r == Some(Refusal::AmountNotPositive)
            &&& (amount > 0 && sub is None) ==> r == Some(Refusal::NoSubscription)
            &&& (amount > 0 && sub is Some && !sub->0.active) ==> r == Some(
                Refusal::SubscriptionNotActive,
            )
            &&& (amount > 0 && sub is Some && sub->0.active && sub->0.paused) ==> r == Some(
                Refusal::SubscriptionPaused,
            )
            &&& (amount > 0 && sub is Some && sub->0.active && !sub->0.paused && !fits) ==> r
                == Some(Refusal::ArithmeticOverflow)
            &&& (amount > 0 && sub is Some && sub->0.active && !sub->0.paused && fits
                && daily_limit is Some && total > daily_limit->0) ==> r == Some(
                Refusal::DailyLimitExceeded,
            )
        }),
{
}

/// Which slots a page reads: none when the offset is at or past the end of
/// the index or the limit is zero; otherwise every slot from the offset up
/// to the offset plus the limit capped at fifty, or up to the end of the
/// index if that comes first.
pub proof fn law_page_window_exact(count: u64, offset: u64, limit: u32)
    ensures
        ({
            let cap: int = if limit > 50 {
                50
            } else {
                limit as int
            };
            let w = page_window(count, offset, limit);
            &&& (offset >= count || limit == 0) ==> w == Ok::<(u64, u64), Refusal>((offset, offset))
            &&& (offset < count && limit > 0 && offset + cap <= u64::MAX) ==> (w is Ok
                && w->Ok_0.0 == offset && w->Ok_0.1 == (if offset + cap < count {
                offset + cap
            } else {
                count as int
            }))
            &&& (offset < count && limit > 0 && offset + cap > u64::MAX) ==> w == Err::<
                (u64, u64),
                Refusal,
            >(Refusal::ArithmeticOverflow)
        }),
{
}

/// A run of slots that all hold an account yields every account, in order.
pub proof fn law_page_keeps_every_account<A>(slots: Seq<Option<A>>)
    requires
        forall|i: int| 0 <= i < slots.len() ==> slots[i] is Some,
    ensures
        present(slots).len() == slots.len(),
        forall|i: int| 0 <= i < slots.len() ==> present(slots)[i] == slots[i]->0,
    decreases slots.len(),
{
    if slots.len() > 0 {
        let rest = slots.drop_first();
        assert forall|i: int| 0 <= i < rest.len() implies rest[i] is Some by {
            assert(rest[i] == slots[i + 1]);
        }
        law_page_keeps_every_account(rest);
        assert forall|i: int| 0 <= i < slots.len() implies present(slots)[i] == slots[i]->0 by {
            if i > 0 {
                assert(present(slots)[i] == present(rest)[i - 1]);
                assert(rest[i - 1] == slots[i]);
            }
        }
    }
}

/// A page is built slot by slot: an empty run gives no account, a slot
/// holding an account adds it at the end, and an empty slot adds nothing.
pub proof fn law_page_slot_by_slot<A>(slots: Seq<Option<A>>, a: A)
    ensures
        present(Seq::<Option<A>>::empty()) == Seq::<A>::empty(),
        present(slots.push(Some(a))) == present(slots).push(a),
        present(slots.push(None::<A>)) == present(slots),
    decreases slots.len(),
{
    if slots.len() == 0 {
        assert(present(Seq::<Option<A>>::empty()) == Seq::<A>::empty());
        assert(present(slots) == Seq::<A>::empty());
        assert(slots.push(Some(a))[0] == Some(a));
        assert(slots.push(None::<A>)[0] == None::<A>);
        assert(slots.push(Some(a)).drop_first() =~= Seq::<Option<A>>::empty());
        assert(slots.push(None::<A>).drop_first() =~= Seq::<Option<A>>::empty());
        assert(present(slots.push(Some(a))) =~= present(slots).push(a));
        assert(present(slots.push(None::<A>)) =~= present(slots));
    } else {
        let rest = slots.drop_first();
        law_page_slot_by_slot(rest, a);
        assert(slots.push(Some(a)).drop_first() =~= rest.push(Some(a)));
        assert(slots.push(None::<A>).drop_first() =~= rest.push(None::<A>));
        let head = match slots[0] {
            Some(x) => seq![x],
            None => Seq::empty(),
        };
        assert(slots.push(Some(a))[0] == slots[0]);
        assert(slots.push(None::<A>)[0] == slots[0]);
        assert(present(slots) == head + present(rest));
        assert(present(slots.push(Some(a))) == head + present(rest.push(Some(a))));
        assert((head + present(rest)).push(a) =~= head + present(rest).push(a));
        assert(present(slots.push(Some(a))) =~= present(slots).push(a));
        assert(present(slots.push(None::<A>)) =~= present(slots));
    }
}

/// When the next charge falls due: for any active subscription, paused or
/// not, one interval after its last charge; never for a missing or
/// cancelled subscription.  A trial lasts while an active subscription's
/// last charge lies in the future, and ends then.
pub proof fn law_next_charge_outcome<A>(sub: Option<Subscription<A>>, now: u64)
    ensures
        sub is None ==> next_charge_time(sub) == Ok::<Option<u64>, Refusal>(None),
        (sub is Some && !sub->0.active) ==> next_charge_time(sub) == Ok::<Option<u64>, Refusal>(
            None,
        ),
        (sub is Some && sub->0.active && sub->0.last_charged + sub->0.interval <= u64::MAX)
            ==> next_charge_time(sub) == Ok::<Option<u64>, Refusal>(
            Some((sub->0.last_charged + sub->0.interval) as u64),
        ),
        (sub is Some && sub->0.active && sub->0.last_charged + sub->0.interval > u64::MAX)
            ==> next_charge_time(sub) == Err::<Option<u64>, Refusal>(Refusal::ArithmeticOverflow),
        (sub is Some && sub->0.active && now < sub->0.last_charged) ==> trial_end(sub, now) == Some(
            sub->0.last_charged,
        ),
        (sub is None || !sub->0.active || sub->0.last_charged <= now) ==> trial_end(sub, now)
            is None,
{
}

/// What cancelling, pausing and resuming change: cancelling only clears
/// `active`, and lowers the active count by one if it was set (never below
/// zero); pausing and resuming only set `paused`, and need an existing,
/// active subscription.
pub proof fn law_status_changes<A>(s: Subscription<A>, flag: bool, count: u64, sub: Option<Subscription<A>>)
    ensures
        ({
            let c = with_active(s, flag);
            &&& c.merchant == s.merchant && c.token == s.token && c.amount == s.amount
            &&& c.interval == s.interval && c.last_charged == s.last_charged && c.paused == s.paused
            &&& c.active == flag
        }),
        ({
            let p = with_paused(s, flag);
            &&& p.merchant == s.merchant && p.token == s.token && p.amount == s.amount
            &&& p.interval == s.interval && p.last_charged == s.last_charged && p.active == s.active
            &&& p.paused == flag
        }),
        count_after_cancel(count, true) == (if count > 0 {
            count - 1
        } else {
            0
        }),
        count_after_cancel(count, false) == count,
        toggle_refusal(sub) is None <==> (sub is Some && sub->0.active),
        sub is None ==> toggle_refusal(sub) == Some(Refusal::NoSubscription),
        (sub is Some && !sub->0.active) ==> toggle_refusal(sub) == Some(
            Refusal::SubscriptionNotActive,
        ),
{
}

/// The history keeps the last `n` entries: as many as there are, up to
/// `n`, each the entry at the same distance from the end.
pub proof fn law_keep_last_is_suffix<T>(s: Seq<T>, n: nat)
    ensures
        keep_last(s, n).len() == (if s.len() <= n {
            s.len()
        } else {
            n
        }),
        forall|i: int|
            0 <= i < keep_last(s, n).len() ==> keep_last(s, n)[i] == s[s.len() - keep_last(
                s,
                n,
            ).len() + i],
{
}

/// Crediting a payment raises the total and the day's total by its amount
/// and appends it to the history; it is refused exactly when a sum leaves
/// the representable range.
pub proof fn law_credit_outcome(total: i128, day: i128, history: Seq<i128>, amount: i128)
    ensures
        credited(total, day, history, amount) is None <==> (total + amount < i128::MIN || total
            + amount > i128::MAX || day + amount < i128::MIN || day + amount > i128::MAX),
        credited(total, day, history, amount) is Some ==> ({
            let c = credited(total, day, history, amount)->0;
            &&& c.0 == total + amount
            &&& c.1 == day + amount
            &&& c.2.len() == history.len() + 1
            &&& c.2.last() == amount
            &&& c.2.drop_last() == history
        }),
{
    if credited(total, day, history, amount) is Some {
        assert(history.push(amount).drop_last() =~= history);
    }
}

/// Counting a stored subscription adds one to the active count exactly
/// when it is counted, and gives the subscriber the next index slot exactly
/// when it is indexed.
pub proof fn law_registration_outcome(active_count: u64, index_size: u64, counted: bool, indexed: bool)
    ensures
        ({
            let r = registration(active_count, index_size, counted, indexed);
            &&& r is Err <==> ((counted && active_count == u64::MAX) || (indexed && index_size
                == u64::MAX))
            &&& r is Ok ==> ({
                let g = r->Ok_0;
                &&& g.active_count == active_count + (if counted {
                    1int
                } else {
                    0
                })
                &&& g.index_size == index_size + (if indexed {
                    1int
                } else {
                    0
                })
                &&& (g.slot is Some <==> indexed)
                &&& indexed ==> g.slot == Some(index_size)
            })
        }),
        stored_or_zero(None) == 0,
{
}

/// The health report: healthy exactly when the contract is not paused
/// (unpaused unless a flag is stored), a token and an admin are configured
/// and more than 17280 ledgers of time to live remain; the other fields
/// report the inputs, with zero for a missing count or version.
pub proof fn law_health_outcome(
    paused: Option<bool>,
    token: bool,
    admin: bool,
    ttl: u32,
    count: Option<u64>,
    version: Option<u32>,
)
    ensures
        ({
            let h = health(paused, token, admin, ttl, count, version);
            let is_paused = paused == Some(true);
            &&& h.is_healthy <==> (!is_paused && token && admin && ttl > 17280)
            &&& h.contract_paused == is_paused
            &&& h.token_configured == token
            &&& h.admin_configured == admin
            &&& h.instance_ttl_ledgers == ttl
            &&& h.active_subscription_count == (match count {
                Some(c) => c,
                None => 0,
            })
            &&& h.schema_version == (match version {
                Some(v) => v,
                None => 0,
            })
        }),
        migration(None) == Some(1u32),
        migration(Some(0)) == Some(1u32),
        forall|v: u32| v >= 1 ==> migration(Some(v)) is None,
{
}

/// A batch records a subscriber as charged exactly when its charge went
/// through, and each refusal under its own outcome.
pub proof fn law_batch_result(r: Option<Refusal>)
    ensures
        (result_of(r) == ChargeResult::Charged) <==> r is None,
        r == Some(Refusal::Code(ContractError::NoSubscriptionFound)) ==> result_of(r)
            == ChargeResult::NoSubscription,
        r == Some(Refusal::SubscriptionNotActive) ==> result_of(r) == ChargeResult::Inactive,
        r == Some(Refusal::SubscriptionPaused) ==> result_of(r) == ChargeResult::Paused,
        r == Some(Refusal::Code(ContractError::IntervalNotElapsed)) ==> result_of(r)
            == ChargeResult::IntervalNotElapsed,
        r == Some(Refusal::Code(ContractError::GracePeriodElapsed)) ==> result_of(r)
            == ChargeResult::GracePeriodElapsed,
{
}

} // verus!
