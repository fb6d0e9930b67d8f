use vstd::prelude::*;

use crate::errors::Refusal;
use crate::contract::FlowPay;

verus! {

/// The most subscribers one page returns.
pub const MAX_PAGE_SIZE: u32 = 50;

/// How a subscription joins the counters: the active count after it, the
/// index slot that receives the subscriber if it is new, and the index size
/// after that.
#[derive(Clone, Copy, Debug, PartialEq, Eq)]
pub struct Registration {
    pub active_count: u64,
    pub slot: Option<u64>,
    pub index_size: u64,
}

/// The counters after a subscription that joins the active count if
/// `counted` and the subscriber index if `indexed`.
pub open spec fn registration(active_count: u64, index_size: u64, counted: bool, indexed: bool) -> Result<
    Registration,
    Refusal,
> {
    if (counted && active_count == u64::MAX) || (indexed && index_size == u64::MAX) {
        Err(Refusal::ArithmeticOverflow)
    } else {
        Ok(
            Registration {
                active_count: if counted {
                    (active_count + 1) as u64
                } else {
                    active_count
                },
                slot: if indexed {
                    Some(index_size)
                } else {
                    None
                },
                index_size: if indexed {
                    (index_size + 1) as u64
                } else {
                    index_size
                },
            },
        )
    }
}

pub open spec fn stored_or_zero(stored: Option<u64>) -> u64 {
    match stored {
        Some(v) => v,
        None => 0,
    }
}

/// The page size that a requested `limit` is capped to.
pub open spec fn page_cap(limit: u32) -> u64 {
    if limit > MAX_PAGE_SIZE {
        MAX_PAGE_SIZE as u64
    } else {
        limit as u64
    }
}

/// The index slots `[start, end)` that a page reads.
pub open spec fn page_window(count: u64, offset: u64, limit: u32) -> Result<(u64, u64), Refusal> {
    let cap = page_cap(limit);
    if offset >= count || cap == 0 {
        Ok((offset, offset))
    } else if offset + cap > u64::MAX {
        Err(Refusal::ArithmeticOverflow)
    } else if offset + cap < count {
        Ok((offset, (offset + cap) as u64))
    } else {
        Ok((offset, count))
    }
}

/// The accounts found in a run of index slots, in slot order.
pub open spec fn present<A>(slots: Seq<Option<A>>) -> Seq<A>
    decreases slots.len(),
{
    if slots.len() == 0 {
        Seq::empty()
    } else {
        let head = match slots[0] {
            Some(a) => seq![a],
            None => Seq::empty(),
        };
        head + present(slots.drop_first())
    }
}

pub proof fn lemma_present_len<A>(slots: Seq<Option<A>>)
    ensures
        present(slots).len() <= slots.len(),
    decreases slots.len(),
{
    if slots.len() > 0 {
        lemma_present_len(slots.drop_first());
    }
}

impl FlowPay {
    /// The number of active subscriptions, given the stored count: zero while none is stored.
    pub fn get_active_count(stored: Option<u64>) -> (v: u64)
        ensures
            v == stored_or_zero(stored),
    {
        match stored {
            Some(v) => v,
            None => 0,
        }
    }

    /// The number of subscribers ever recorded, given the stored index size:
    /// zero while none is stored.
    pub fn get_subscriber_count(stored: Option<u64>) -> (v: u64)
        ensures
            v == stored_or_zero(stored),
    {
        match stored {
            Some(v) => v,
            None => 0,
        }
    }

    /// Counts a stored subscription: one more active subscription if
    /// `counted`, and the subscriber appended to the index at its current
    /// end if `indexed`.
    pub fn register_subscriber(active_count: u64, index_size: u64, counted: bool, indexed: bool) -> (res:
        Result<Registration, Refusal>)
        ensures
            res == registration(active_count, index_size, counted, indexed),
    {
        if (counted && active_count == u64::MAX) || (indexed && index_size == u64::MAX) {
            return Err(Refusal::ArithmeticOverflow);
        }
        Ok(
            Registration {
                active_count: if counted {
                    active_count + 1
                } else {
                    active_count
                },
                slot: if indexed {
                    Some(index_size)
                } else {
                    None
                },
                index_size: if indexed {
                    index_size + 1
                } else {
                    index_size
                },
            },
        )
    }

    /// The index slots that a page of subscribers starting at `offset`
    /// reads: at most `limit`, and never more than fifty, slots, none past
    /// the end of the index; no slot when `offset` is past the end or
    /// `limit` is zero.
    pub fn subscriber_page_window(count: u64, offset: u64, limit: u32) -> (res: Result<
        (u64, u64),
        Refusal,
    >)
        ensures
            res == page_window(count, offset, limit),
    {
        let cap: u32 = if limit > MAX_PAGE_SIZE {
            MAX_PAGE_SIZE
        } else {
            limit
        };
        if offset >= count || cap == 0 {
            return Ok((offset, offset));
        }
        let end = match offset.checked_add(cap as u64) {
            Some(e) => e,
            None => return Err(Refusal::ArithmeticOverflow),
        };
        if end < count {
            Ok((offset, end))
        } else {
            Ok((offset, count))
        }
    }

    /// The page of subscribers read from a run of index slots: the accounts
    /// found, in slot order, with empty slots skipped.
    pub fn get_subscriber_page<A>(slots: Vec<Option<A>>) -> (page: Vec<A>)
        ensures
            page@ == present(slots@),
            page.len() <= slots.len(),
    {
        let ghost all = slots@;
        let mut rest = slots;
        let mut page: Vec<A> = Vec::new();
        let ghost mut taken: int = 0;
        while rest.len() > 0
            invariant
                0 <= taken <= all.len(),
                rest@ == all.skip(taken),
                page@ + present(rest@) == present(all),
            decreases rest.len(),
        {
            let ghost before = rest@;
            let slot = rest.remove(0);
            proof {
                assert(rest@ =~= before.drop_first());
                assert(all.skip(taken + 1) =~= before.drop_first());
                taken = taken + 1;
            }
            match slot {
                Some(a) => {
                    let ghost p0 = page@;
                    page.push(a);
                    assert(present(before) == seq![a] + present(rest@));
                    assert(page@ + present(rest@) =~= p0 + (seq![a] + present(rest@)));
                },
                None => {
                    assert(present(before) =~= present(rest@));
                },
            }
        }
        proof {
            assert(present(rest@) =~= Seq::<A>::empty());
            assert(page@ =~= present(all));
            lemma_present_len(all);
        }
        page
    }
}

} // verus!
