use vstd::prelude::*;

use crate::errors::Refusal;
use crate::contract::FlowPay;

verus! {

/// How many charge times are kept per subscriber.
pub const MAX_CHARGE_HISTORY: usize = 12;

/// Seconds per revenue day.
pub const SECONDS_PER_DAY: u64 = 86400;

/// The last `n` elements of `s`, or all of them when there are fewer.
pub open spec fn keep_last<T>(s: Seq<T>, n: nat) -> Seq<T> {
    if s.len() <= n {
        s
    } else {
        s.skip(s.len() - n)
    }
}

/// A merchant's revenue records: the running total, the total of the
/// current day and the amount of each charge, oldest first.
#[derive(Clone, Debug, PartialEq, Eq)]
pub struct MerchantRevenue {
    pub total: i128,
    pub day_total: i128,
    pub history: Vec<i128>,
}

/// The revenue records after crediting `amount`, if no sum overflows.
pub open spec fn credited(total: i128, day_total: i128, history: Seq<i128>, amount: i128) -> Option<
    (int, int, Seq<i128>),
> {
    let t = total + amount;
    let d = day_total + amount;
    if t < i128::MIN || t > i128::MAX || d < i128::MIN || d > i128::MAX {
        None
    } else {
        Some((t, d, history.push(amount)))
    }
}

/// Copies `s[from..]` onto the end of `out`.
fn append_from<T: Copy>(out: &mut Vec<T>, s: &Vec<T>, from: usize)
    requires
        from <= s.len(),
    ensures
        final(out)@ == old(out)@ + s@.skip(from as int),
{
    let mut i = from;
    while i < s.len()
        invariant
            from <= i <= s.len(),
            out@ == old(out)@ + s@.subrange(from as int, i as int),
        decreases s.len() - i,
    {
        out.push(s[i]);
        i = i + 1;
        assert(s@.subrange(from as int, i as int) =~= s@.subrange(from as int, i - 1).push(
            s@[i - 1],
        ));
        assert(out@ =~= old(out)@ + s@.subrange(from as int, i as int));
    }
    assert(s@.skip(from as int) =~= s@.subrange(from as int, s.len() as int));
}

impl FlowPay {
    /// Records a charge at time `at`: the history keeps the last twelve
    /// charge times, oldest first.
    pub fn record_charge(history: &Vec<u64>, at: u64) -> (res: Vec<u64>)
        ensures
            res@ == keep_last(history@.push(at), MAX_CHARGE_HISTORY as nat),
    {
        let from = if history.len() >= MAX_CHARGE_HISTORY {
            history.len() - (MAX_CHARGE_HISTORY - 1)
        } else {
            0
        };
        let mut res: Vec<u64> = Vec::new();
        append_from(&mut res, history, from);
        res.push(at);
        proof {
            let full = history@.push(at);
            assert(res@ =~= keep_last(full, MAX_CHARGE_HISTORY as nat));
        }
        res
    }

    /// The revenue day of a ledger time.
    pub fn revenue_day(now: u64) -> (d: u64)
        ensures
            d == now / SECONDS_PER_DAY,
    {
        now / SECONDS_PER_DAY
    }

    /// A merchant's total revenue, given the stored one: zero while none is stored.
    pub fn get_merchant_revenue(stored: Option<i128>) -> (v: i128)
        ensures
            v == (match stored {
                Some(v) => v,
                None => 0,
            }),
    {
        match stored {
            Some(v) => v,
            None => 0,
        }
    }

    /// Credits a payment of `amount` to a merchant: the total and the
    /// day's total grow by `amount`, and the amount joins the history.
    pub fn credit_revenue(rev: MerchantRevenue, amount: i128) -> (res: Result<
        MerchantRevenue,
        Refusal,
    >)
        ensures
            match credited(rev.total, rev.day_total, rev.history@, amount) {
                None => res == Err::<MerchantRevenue, Refusal>(Refusal::ArithmeticOverflow),
                Some(c) => res matches Ok(r) && r.total == c.0 && r.day_total == c.1
                    && r.history@ == c.2,
            },
    {
        let total = match rev.total.checked_add(amount) {
            Some(t) => t,
            None => return Err(Refusal::ArithmeticOverflow),
        };
        let day_total = match rev.day_total.checked_add(amount) {
            Some(d) => d,
            None => return Err(Refusal::ArithmeticOverflow),
        };
        let mut history = rev.history;
        history.push(amount);
        Ok(MerchantRevenue { total, day_total, history })
    }

    /// The most recent `days` entries of a merchant's revenue history,
    /// oldest first; all of them when there are fewer.
    pub fn get_merchant_revenue_history(history: &Vec<i128>, days: u32) -> (res: Vec<i128>)
        ensures
            res@ == keep_last(history@, days as nat),
    {
        let from = if history.len() > days as usize {
            history.len() - days as usize
        } else {
            0
        };
        let mut res: Vec<i128> = Vec::new();
        append_from(&mut res, history, from);
        proof {
            assert(res@ =~= keep_last(history@, days as nat));
        }
        res
    }
}

} // verus!
