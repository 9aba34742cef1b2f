//! Navigation requests and their coalescing: of the requests that pile up
//! while the loop is busy, only the most recent one is answered.

use crate::navigator::{get_next_idx, next_index, Direction};
use vstd::prelude::*;

verus! {

/// What the consumer asks of the request loop.
#[derive(Debug, Clone, Copy, PartialEq, Eq, Structural)]
pub enum NavigationRequest {
    /// Show the file one step away from the focus.
    Move(Direction),
    /// Show the file at this index.
    Index(usize),
    /// Leave the loop.
    Exit,
}

/// The one request that stands for a batch received together: nothing for
/// an empty batch, `Exit` as soon as the batch holds one, and otherwise
/// the last request, which supersedes all before it.
pub open spec fn coalesced(batch: Seq<NavigationRequest>) -> Option<NavigationRequest> {
    if batch.len() == 0 {
        None
    } else if batch.contains(NavigationRequest::Exit) {
        Some(NavigationRequest::Exit)
    } else {
        Some(batch.last())
    }
}

/// The index that `request` asks for when the focus is `focus`, in a
/// collection of `len` items. `Exit` asks for nothing and leaves the focus.
pub open spec fn target_of(focus: int, len: int, request: NavigationRequest) -> int {
    match request {
        NavigationRequest::Move(d) => next_index(focus, len, d),
        NavigationRequest::Index(idx) => idx as int,
        NavigationRequest::Exit => focus,
    }
}

/// Reduces a batch of requests, oldest first, to the one to answer.
pub fn coalesce(batch: &Vec<NavigationRequest>) -> (latest: Option<NavigationRequest>)
    ensures
        latest == coalesced(batch@),
{
    let mut latest: Option<NavigationRequest> = None;
    let mut i: usize = 0;
    while i < batch.len()
        invariant
            i <= batch@.len(),
            forall|j: int| 0 <= j < i ==> batch@[j] != NavigationRequest::Exit,
            i == 0 ==> latest.is_none(),
            i > 0 ==> latest == Some(batch@[i - 1]),
        decreases batch@.len() - i,
    {
        let request = batch[i];
        match request {
            NavigationRequest::Exit => {
                assert(batch@[i as int] == NavigationRequest::Exit);
                return Some(NavigationRequest::Exit);
            },
            _ => {
                latest = Some(request);
            },
        }
        i = i + 1;
    }
    latest
}

/// The index that `request` leads to from `focus`.
pub fn resolve_target(focus: usize, len: usize, request: NavigationRequest) -> (target: usize)
    requires
        len > 0,
    ensures
        target == target_of(focus as int, len as int, request),
{
    match request {
        NavigationRequest::Move(d) => get_next_idx(focus, len, d),
        NavigationRequest::Index(idx) => idx,
        NavigationRequest::Exit => focus,
    }
}

/// The last request wins: when no request of a batch is `Exit`, the batch
/// counts as its last request alone, whatever came before it.
pub proof fn lemma_last_request_wins(earlier: Seq<NavigationRequest>, last: NavigationRequest)
    requires
        !earlier.contains(NavigationRequest::Exit),
        last != NavigationRequest::Exit,
    ensures
        coalesced(earlier.push(last)) == Some(last),
        coalesced(earlier.push(last)) == coalesced(seq![last]),
{
    let batch = earlier.push(last);
    if batch.contains(NavigationRequest::Exit) {
        let k = choose|k: int| 0 <= k < batch.len() && batch[k] == NavigationRequest::Exit;
        if k < earlier.len() {
            assert(earlier[k] == NavigationRequest::Exit);
        }
    }
    let single = seq![last];
    if single.contains(NavigationRequest::Exit) {
        let k = choose|k: int| 0 <= k < single.len() && single[k] == NavigationRequest::Exit;
        assert(single[k] == last);
    }
    assert(single.last() == last);
}

/// `Exit` wins over everything: a batch that holds it anywhere counts as
/// `Exit`, whatever was asked before or after.
pub proof fn lemma_exit_wins(
    before: Seq<NavigationRequest>,
    after: Seq<NavigationRequest>,
)
    ensures
        coalesced(before.push(NavigationRequest::Exit) + after) == Some(NavigationRequest::Exit),
{
    let batch = before.push(NavigationRequest::Exit) + after;
    assert(batch[before.len() as int] == NavigationRequest::Exit);
}

/// A request made from a focus inside the collection leads to an index
/// inside the collection, provided a raw index is itself inside it.
pub proof fn lemma_target_stays_inside(focus: int, len: int, request: NavigationRequest)
    requires
        0 <= focus < len,
        request matches NavigationRequest::Index(idx) ==> idx < len,
    ensures
        0 <= target_of(focus, len, request) < len,
{
}

} // verus!
