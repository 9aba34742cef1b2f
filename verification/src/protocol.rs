//! The claim protocol, stated over every sequence of store operations:
//! a slot only moves forward, a settled slot never changes again, and for
//! each file at most one claim is ever granted and at most one outcome
//! ever recorded.

use crate::status::FileStatus;
use crate::store::{after_claim, after_resolve, Slots};
use vstd::prelude::*;

verus! {

/// One operation on the store that may change it.
pub enum StoreOp<T> {
    /// `try_claim` of an index.
    Claim(usize),
    /// `resolve` of an index with the outcome of its read.
    Resolve(usize, Result<T, String>),
}

/// Whether `op` may be applied to `slots`: its index is in the store, and
/// an outcome is only recorded in a slot that is being read.
pub open spec fn permitted<T>(slots: Slots<T>, op: StoreOp<T>) -> bool {
    match op {
        StoreOp::Claim(idx) => idx < slots.len(),
        StoreOp::Resolve(idx, _) => idx < slots.len() && slots[idx as int] is Reading,
    }
}

/// The slots after `op`.
pub open spec fn effect<T>(slots: Slots<T>, op: StoreOp<T>) -> Slots<T> {
    match op {
        StoreOp::Claim(idx) => after_claim(slots, idx as int),
        StoreOp::Resolve(idx, outcome) => after_resolve(slots, idx as int, outcome),
    }
}

/// Whether `ops` can be applied one after the other, starting from `slots`.
pub open spec fn permitted_run<T>(slots: Slots<T>, ops: Seq<StoreOp<T>>) -> bool
    decreases ops.len(),
{
    ops.len() == 0 || (permitted(slots, ops[0]) && permitted_run(
        effect(slots, ops[0]),
        ops.drop_first(),
    ))
}

/// The slots after all of `ops`, applied in order.
pub open spec fn run<T>(slots: Slots<T>, ops: Seq<StoreOp<T>>) -> Slots<T>
    decreases ops.len(),
{
    if ops.len() == 0 {
        slots
    } else {
        run(effect(slots, ops[0]), ops.drop_first())
    }
}

/// Whether `op` is a claim of `idx` that `slots` grants.
pub open spec fn wins_claim<T>(slots: Slots<T>, op: StoreOp<T>, idx: int) -> bool {
    op matches StoreOp::Claim(j) && j == idx && 0 <= idx < slots.len() && slots[idx] is Unread
}

/// Number of claims of `idx` that are granted in the course of `ops`.
pub open spec fn grants<T>(slots: Slots<T>, ops: Seq<StoreOp<T>>, idx: int) -> nat
    decreases ops.len(),
{
    if ops.len() == 0 {
        0
    } else {
        let here: nat = if wins_claim(slots, ops[0], idx) {
            1
        } else {
            0
        };
        here + grants(effect(slots, ops[0]), ops.drop_first(), idx)
    }
}

/// Number of outcomes recorded for `idx` in the course of `ops`.
pub open spec fn resolutions<T>(ops: Seq<StoreOp<T>>, idx: int) -> nat
    decreases ops.len(),
{
    if ops.len() == 0 {
        0
    } else {
        let here: nat = if ops[0] matches StoreOp::Resolve(j, _) && j == idx {
            1
        } else {
            0
        };
        here + resolutions(ops.drop_first(), idx)
    }
}

/// No operation adds or removes a slot: the store keeps the length it was
/// made with, which is the length of the list of paths.
pub proof fn lemma_run_keeps_length<T>(slots: Slots<T>, ops: Seq<StoreOp<T>>)
    requires
        permitted_run(slots, ops),
    ensures
        run(slots, ops).len() == slots.len(),
    decreases ops.len(),
{
    if ops.len() > 0 {
        lemma_run_keeps_length(effect(slots, ops[0]), ops.drop_first());
    }
}

/// Applying one more operation after a run is applying it to what the
/// run leaves.
pub proof fn lemma_run_extends<T>(slots: Slots<T>, ops: Seq<StoreOp<T>>, op: StoreOp<T>)
    requires
        permitted_run(slots, ops),
        permitted(run(slots, ops), op),
    ensures
        permitted_run(slots, ops.push(op)),
        run(slots, ops.push(op)) == effect(run(slots, ops), op),
    decreases ops.len(),
{
    let longer = ops.push(op);
    if ops.len() == 0 {
        assert(longer.drop_first() =~= Seq::<StoreOp<T>>::empty());
        assert(permitted_run(effect(slots, op), longer.drop_first()));
        assert(run(effect(slots, op), longer.drop_first()) == effect(slots, op));
    } else {
        assert(longer[0] == ops[0]);
        assert(longer.drop_first() =~= ops.drop_first().push(op));
        lemma_run_extends(effect(slots, ops[0]), ops.drop_first(), op);
    }
}

/// A slot only moves forward: whatever operations follow, its stage never
/// falls back.
pub proof fn lemma_stage_never_falls<T>(slots: Slots<T>, ops: Seq<StoreOp<T>>, idx: int)
    requires
        0 <= idx < slots.len(),
        permitted_run(slots, ops),
    ensures
        run(slots, ops)[idx].stage() >= slots[idx].stage(),
    decreases ops.len(),
{
    if ops.len() > 0 {
        lemma_stage_never_falls(effect(slots, ops[0]), ops.drop_first(), idx);
    }
}

/// Once a slot is `Read` or `Failed` it stays exactly as it is, payload
/// and reason included, whatever operations follow.
pub proof fn lemma_settled_is_final<T>(slots: Slots<T>, ops: Seq<StoreOp<T>>, idx: int)
    requires
        0 <= idx < slots.len(),
        slots[idx].is_settled(),
        permitted_run(slots, ops),
    ensures
        run(slots, ops)[idx] == slots[idx],
    decreases ops.len(),
{
    if ops.len() > 0 {
        lemma_settled_is_final(effect(slots, ops[0]), ops.drop_first(), idx);
    }
}

/// Of two claims of the same unread index, made one after the other, the
/// first is granted and the second is refused.
pub proof fn lemma_second_claim_is_refused<T>(slots: Slots<T>, idx: int)
    requires
        0 <= idx < slots.len(),
        slots[idx] is Unread,
    ensures
        after_claim(slots, idx)[idx] is Reading,
        !(after_claim(slots, idx)[idx] is Unread),
        after_claim(after_claim(slots, idx), idx) == after_claim(slots, idx),
{
}

/// For each file, whatever operations are applied and in whatever order,
/// at most one claim is ever granted and at most one outcome is ever
/// recorded: none of either once the slot is settled, and no grant once
/// the slot has left `Unread`.
pub proof fn lemma_claimed_and_resolved_once<T>(slots: Slots<T>, ops: Seq<StoreOp<T>>, idx: int)
    requires
        0 <= idx < slots.len(),
        permitted_run(slots, ops),
    ensures
        grants(slots, ops, idx) <= 1,
        resolutions(ops, idx) <= 1,
        !(slots[idx] is Unread) ==> grants(slots, ops, idx) == 0,
        slots[idx].is_settled() ==> resolutions(ops, idx) == 0,
    decreases ops.len(),
{
    if ops.len() > 0 {
        lemma_claimed_and_resolved_once(effect(slots, ops[0]), ops.drop_first(), idx);
    }
}

/// An outcome is only ever recorded after a granted claim: in a run that
/// starts from an unread slot, there are no more outcomes than grants.
pub proof fn lemma_resolution_follows_grant<T>(slots: Slots<T>, ops: Seq<StoreOp<T>>, idx: int)
    requires
        0 <= idx < slots.len(),
        slots[idx] is Unread,
        permitted_run(slots, ops),
    ensures
        resolutions(ops, idx) <= grants(slots, ops, idx),
    decreases ops.len(),
{
    if ops.len() > 0 {
        let next = effect(slots, ops[0]);
        if next[idx] is Unread {
            lemma_resolution_follows_grant(next, ops.drop_first(), idx);
        } else {
            lemma_claimed_and_resolved_once(next, ops.drop_first(), idx);
        }
    }
}

} // verus!
