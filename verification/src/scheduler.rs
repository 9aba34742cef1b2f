//! The prefetch scheduler: claims what is unread in the window around the
//! focus and hands the claimed indices out as the batch of reads to start.

use crate::planner::{suggested_items_to_cache, window_end, window_start};
use crate::protocol::{lemma_run_extends, permitted_run, run, StoreOp};
use crate::status::FileStatus;
use crate::store::{after_claim, CacheStore, Slots};
use vstd::prelude::*;

verus! {

/// The indices of `[lo, hi)` whose slot is unread, in ascending order.
pub open spec fn unread_between<T>(slots: Slots<T>, lo: int, hi: int) -> Seq<usize>
    decreases hi - lo,
{
    if hi <= lo {
        Seq::empty()
    } else if slots[hi - 1] is Unread {
        unread_between(slots, lo, hi - 1).push((hi - 1) as usize)
    } else {
        unread_between(slots, lo, hi - 1)
    }
}

/// The slots after every unread slot of `[lo, hi)` has been claimed.
pub open spec fn claimed_between<T>(slots: Slots<T>, lo: int, hi: int) -> Slots<T> {
    Seq::new(
        slots.len(),
        |i: int|
            if lo <= i < hi && slots[i] is Unread {
                FileStatus::Reading
            } else {
                slots[i]
            },
    )
}

/// One claim for each index of `[lo, hi)`, lowest first.
pub open spec fn claims_between<T>(lo: int, hi: int) -> Seq<StoreOp<T>>
    decreases hi - lo,
{
    if hi <= lo {
        Seq::empty()
    } else {
        claims_between::<T>(lo, hi - 1).push(StoreOp::Claim((hi - 1) as usize))
    }
}

/// Claims every unread slot of the window around `focus` and returns the
/// claimed indices, lowest first: the reads that the caller now owes.
///
/// Slots that are being read or are settled are passed over, so no index
/// is handed out while a read of it is under way or done.
pub fn claim_window<T>(store: &mut CacheStore<T>, focus: usize, radius: usize) -> (batch: Vec<
    usize,
>)
    requires
        old(store)@.len() <= 2 * radius || focus < old(store)@.len(),
    ensures
        batch@ == unread_between(
            old(store)@,
            window_start(focus as int, old(store)@.len() as int, radius as int),
            window_end(focus as int, old(store)@.len() as int, radius as int),
        ),
        final(store)@ == claimed_between(
            old(store)@,
            window_start(focus as int, old(store)@.len() as int, radius as int),
            window_end(focus as int, old(store)@.len() as int, radius as int),
        ),
{
    let len: usize = store.len();
    let range = suggested_items_to_cache(focus, len, radius);
    let ghost before = store@;
    let ghost lo = range.start as int;
    proof {
        crate::planner::lemma_window_in_bounds(focus as int, len as int, radius as int);
    }
    let mut batch: Vec<usize> = Vec::new();
    let mut i: usize = range.start;
    assert(store@ =~= claimed_between(before, lo, i as int));
    while i < range.end
        invariant
            lo == range.start,
            range.start <= i <= range.end <= len,
            before.len() == len,
            store@ == claimed_between(before, lo, i as int),
            batch@ == unread_between(before, lo, i as int),
        decreases range.end - i,
    {
        let granted = store.try_claim(i);
        if granted {
            batch.push(i);
        }
        i = i + 1;
        assert(store@ =~= claimed_between(before, lo, i as int));
    }
    batch
}

/// Every index of a batch lies in the range it was taken from and was
/// unread there, and the batch is strictly ascending, so it names no index
/// twice.
pub proof fn lemma_batch_is_unread_and_ascending<T>(slots: Slots<T>, lo: int, hi: int)
    requires
        0 <= lo,
        hi <= slots.len() <= usize::MAX,
    ensures
        forall|k: int|
            0 <= k < unread_between(slots, lo, hi).len() ==> lo <= (#[trigger] unread_between(
                slots,
                lo,
                hi,
            )[k]) < hi && slots[unread_between(slots, lo, hi)[k] as int] is Unread,
        forall|j: int, k: int|
            0 <= j < k < unread_between(slots, lo, hi).len() ==> unread_between(slots, lo, hi)[j]
                < unread_between(slots, lo, hi)[k],
    decreases hi - lo,
{
    if hi > lo {
        lemma_batch_is_unread_and_ascending(slots, lo, hi - 1);
    }
}

/// Every unread index of the range is in the batch: nothing that should
/// be warmed is left out.
pub proof fn lemma_batch_misses_nothing<T>(slots: Slots<T>, lo: int, hi: int, idx: int)
    requires
        0 <= lo <= idx < hi <= slots.len() <= usize::MAX,
        slots[idx] is Unread,
    ensures
        unread_between(slots, lo, hi).contains(idx as usize),
    decreases hi - lo,
{
    if idx == hi - 1 {
        let batch = unread_between(slots, lo, hi);
        assert(batch[batch.len() - 1] == idx as usize);
    } else {
        lemma_batch_misses_nothing(slots, lo, hi - 1, idx);
        let shorter = unread_between(slots, lo, hi - 1);
        let k = choose|k: int| 0 <= k < shorter.len() && shorter[k] == idx as usize;
        assert(unread_between(slots, lo, hi)[k] == idx as usize);
    }
}

/// Scheduling the same range again, before any read has ended, hands out
/// nothing and changes nothing: no index is enqueued twice while in flight.
pub proof fn lemma_second_batch_is_empty<T>(slots: Slots<T>, lo: int, hi: int)
    requires
        0 <= lo,
        hi <= slots.len(),
    ensures
        unread_between(claimed_between(slots, lo, hi), lo, hi) == Seq::<usize>::empty(),
        claimed_between(claimed_between(slots, lo, hi), lo, hi) == claimed_between(slots, lo, hi),
{
    lemma_none_unread_gives_empty_batch(claimed_between(slots, lo, hi), lo, hi, lo, hi);
    assert(claimed_between(claimed_between(slots, lo, hi), lo, hi) =~= claimed_between(
        slots,
        lo,
        hi,
    ));
}

/// A range without an unread slot gives an empty batch.
proof fn lemma_none_unread_gives_empty_batch<T>(
    slots: Slots<T>,
    lo: int,
    hi: int,
    from: int,
    to: int,
)
    requires
        0 <= lo <= from,
        to <= hi <= slots.len(),
        forall|i: int| lo <= i < hi ==> !(slots[i] is Unread),
    ensures
        unread_between(slots, from, to) == Seq::<usize>::empty(),
    decreases to - from,
{
    if to > from {
        lemma_none_unread_gives_empty_batch(slots, lo, hi, from, to - 1);
    }
}

/// Claiming a range does to each slot what a single claim does to it, and
/// leaves the slots outside the range alone.
pub proof fn lemma_batch_claims_slot_by_slot<T>(slots: Slots<T>, lo: int, hi: int, idx: int)
    requires
        0 <= idx < slots.len(),
    ensures
        claimed_between(slots, lo, hi).len() == slots.len(),
        lo <= idx < hi ==> claimed_between(slots, lo, hi)[idx] == after_claim(slots, idx)[idx],
        !(lo <= idx < hi) ==> claimed_between(slots, lo, hi)[idx] == slots[idx],
        claimed_between(slots, lo, hi)[idx].stage() >= slots[idx].stage(),
        slots[idx].is_settled() ==> claimed_between(slots, lo, hi)[idx] == slots[idx],
{
}

/// Claiming a range is claiming its indices one after the other, so all
/// that holds of every sequence of store operations holds of a batch.
pub proof fn lemma_batch_is_a_run_of_claims<T>(slots: Slots<T>, lo: int, hi: int)
    requires
        0 <= lo,
        hi <= slots.len() <= usize::MAX,
    ensures
        permitted_run(slots, claims_between::<T>(lo, hi)),
        run(slots, claims_between::<T>(lo, hi)) == claimed_between(slots, lo, hi),
    decreases hi - lo,
{
    if hi <= lo {
        assert(claimed_between(slots, lo, hi) =~= slots);
    } else {
        lemma_batch_is_a_run_of_claims(slots, lo, hi - 1);
        let earlier = claims_between::<T>(lo, hi - 1);
        let last = StoreOp::<T>::Claim((hi - 1) as usize);
        assert(claimed_between(slots, lo, hi - 1).len() == slots.len());
        lemma_run_extends(slots, earlier, last);
        assert(after_claim(claimed_between(slots, lo, hi - 1), hi - 1) =~= claimed_between(
            slots,
            lo,
            hi,
        ));
    }
}

} // verus!
