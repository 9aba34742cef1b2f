//! The request coordinator: the decisions of the loop that answers
//! navigation requests out of the cache store.
//!
//! The coordinator never blocks, sleeps, decodes or sends. `poll` says
//! what the loop has to do next, the loop does it (outside of any lock
//! where it is a decode or a sleep) and polls again; `accept` takes in
//! the requests that the loop has received, and `abort` records that
//! there are none to come. An exit that was asked for and a channel that
//! was lost end the loop in two different ways: `Stop` and `Fail`.

use crate::planner::{window_end, window_start};
use crate::request::{coalesce, coalesced, resolve_target, target_of, NavigationRequest};
use crate::scheduler::{claim_window, claimed_between, unread_between};
use crate::status::FileStatus;
use crate::store::{after_claim, CacheStore, ConstructionError, Slots};
use vstd::prelude::*;

verus! {

/// Neighbours kept warm on each side of the focus unless told otherwise.
pub const DEFAULT_RADIUS: usize = 5;

/// Parallel reads unless told otherwise.
pub const DEFAULT_WORKERS: usize = 4;

/// Milliseconds to sleep before looking again at a slot that someone else
/// is reading.
pub const READING_POLL_MILLIS: u64 = 20;

/// Where the loop stands.
#[derive(Debug, Clone, Copy, PartialEq, Eq, Structural)]
pub enum Phase {
    /// Loading the start file before the first request is taken.
    Warming,
    /// Waiting for a request.
    Idle,
    /// Getting the slot of this index settled, to answer a request.
    Resolving(usize),
    /// Done: the loop has been told to exit.
    Terminated,
    /// Broken: the loop has lost its channel and cannot go on. This is
    /// no way to end a session, and whoever owns the loop is to learn of it.
    Failed,
}

/// What the consumer is told about a request.
#[derive(Debug, PartialEq, Eq)]
pub enum Notice {
    /// The file at this index is in the store, read.
    Ready(usize),
    /// The file could not be read, for this reason.
    Failed(String),
}

/// What the loop has to do next.
#[derive(Debug, PartialEq, Eq)]
pub enum Action {
    /// Block until a request arrives, drain what else is pending, and
    /// `accept` the lot.
    Receive,
    /// Read the file at this index, which has just been claimed, with no
    /// lock held, and `resolve` its slot with the outcome.
    Decode(usize),
    /// Someone else is reading the file at this index: sleep a moment.
    Wait(usize),
    /// Tell the consumer, then start a read for each index of the batch:
    /// every one of them has just been claimed.
    Deliver(Notice, Vec<usize>),
    /// Leave the loop: the session has ended as it was asked to.
    Stop,
    /// Leave the loop with a failure that its owner gets to see: the
    /// channel of requests is gone.
    Fail,
}

/// The state of a coordinator, as contracts see it.
pub struct CoordinatorView {
    /// Number of files of the session.
    pub len: nat,
    /// Neighbours kept warm on each side of the focus.
    pub radius: nat,
    /// The index that is on display, or about to be.
    pub focus: nat,
    /// Where the loop stands.
    pub phase: Phase,
}

impl CoordinatorView {
    /// The focus and the index being resolved are indices of the session,
    /// which has at least one file.
    pub open spec fn wf(self) -> bool {
        &&& self.focus < self.len
        &&& self.len <= usize::MAX
        &&& self.radius <= usize::MAX
        &&& self.phase matches Phase::Resolving(target) ==> target < self.len
    }

    /// The state after a batch of requests has been taken in while idle.
    pub open spec fn accepted(self, batch: Seq<NavigationRequest>) -> CoordinatorView {
        match coalesced(batch) {
            None => self,
            Some(NavigationRequest::Exit) => CoordinatorView { phase: Phase::Terminated, ..self },
            Some(request) => CoordinatorView {
                phase: Phase::Resolving(
                    target_of(self.focus as int, self.len as int, request) as usize,
                ),
                ..self
            },
        }
    }

    /// First index of the window around `idx`.
    pub open spec fn lo(self, idx: int) -> int {
        window_start(idx, self.len as int, self.radius as int)
    }

    /// One past the last index of the window around `idx`.
    pub open spec fn hi(self, idx: int) -> int {
        window_end(idx, self.len as int, self.radius as int)
    }
}

/// What a `poll` does when the coordinator is after the slot of `idx`:
/// an unread slot is claimed and its read asked for, a slot being read is
/// waited for, and both leave the coordinator as it is.
pub open spec fn pursues<T>(
    idx: int,
    pre: CoordinatorView,
    before: Slots<T>,
    post: CoordinatorView,
    after: Slots<T>,
    action: Action,
) -> bool {
    &&& before[idx] is Unread ==> action == Action::Decode(idx as usize) && post == pre && after
        == after_claim(before, idx)
    &&& before[idx] is Reading ==> action == Action::Wait(idx as usize) && post == pre && after
        == before
}

/// What a `poll` does: the action it returns and the coordinator and the
/// slots it leaves, given the coordinator and the slots it found.
pub open spec fn polled<T>(
    pre: CoordinatorView,
    before: Slots<T>,
    post: CoordinatorView,
    after: Slots<T>,
    action: Action,
) -> bool {
    match pre.phase {
        Phase::Idle => action is Receive && post == pre && after == before,
        Phase::Terminated => action is Stop && post == pre && after == before,
        Phase::Failed => action is Fail && post == pre && after == before,
        Phase::Warming => {
            let idx = pre.focus as int;
            &&& pursues(idx, pre, before, post, after, action)
            &&& before[idx].is_settled() ==> action is Receive && post == (CoordinatorView {
                phase: Phase::Idle,
                ..pre
            }) && after == before
        },
        Phase::Resolving(target) => {
            let idx = target as int;
            &&& pursues(idx, pre, before, post, after, action)
            &&& before[idx].is_settled() ==> {
                &&& post == (CoordinatorView { phase: Phase::Idle, focus: target as nat, ..pre })
                &&& after == claimed_between(before, pre.lo(idx), pre.hi(idx))
                &&& action matches Action::Deliver(notice, batch)
                &&& batch@ == unread_between(before, pre.lo(idx), pre.hi(idx))
                &&& before[idx] is Read ==> notice == Notice::Ready(target)
                &&& before[idx] matches FileStatus::Failed(reason) ==> notice == Notice::Failed(
                    reason,
                )
            }
        },
    }
}

/// The decisions of the request loop of one session.
pub struct Coordinator {
    len: usize,
    radius: usize,
    focus: usize,
    phase: Phase,
}

impl View for Coordinator {
    type V = CoordinatorView;

    closed spec fn view(&self) -> CoordinatorView {
        CoordinatorView {
            len: self.len as nat,
            radius: self.radius as nat,
            focus: self.focus as nat,
            phase: self.phase,
        }
    }
}

impl Coordinator {
    /// A coordinator for `path_count` files that starts by warming the
    /// file at `start_index`. A session without files is refused.
    pub fn new(path_count: usize, start_index: usize, radius: usize) -> (made: Result<
        Coordinator,
        ConstructionError,
    >)
        requires
            path_count > 0 ==> start_index < path_count,
        ensures
            made is Err <==> path_count == 0,
            made matches Err(e) ==> e == ConstructionError::EmptyPathList,
            made matches Ok(c) ==> c@.wf() && c@ == (CoordinatorView {
                len: path_count as nat,
                radius: radius as nat,
                focus: start_index as nat,
                phase: Phase::Warming,
            }),
    {
        if path_count == 0 {
            Err(ConstructionError::EmptyPathList)
        } else {
            Ok(Coordinator { len: path_count, radius, focus: start_index, phase: Phase::Warming })
        }
    }

    /// Number of files of the session.
    pub fn len(&self) -> (n: usize)
        ensures
            n == self@.len,
    {
        self.len
    }

    /// Neighbours kept warm on each side of the focus.
    pub fn radius(&self) -> (r: usize)
        ensures
            r == self@.radius,
    {
        self.radius
    }

    /// The index on display.
    pub fn focus(&self) -> (idx: usize)
        ensures
            idx == self@.focus,
    {
        self.focus
    }

    /// Where the loop stands.
    pub fn phase(&self) -> (p: Phase)
        ensures
            p == self@.phase,
    {
        self.phase
    }

    /// Whether the loop has ended because it was told to exit.
    pub fn is_terminated(&self) -> (b: bool)
        ensures
            b == (self@.phase is Terminated),
    {
        match self.phase {
            Phase::Terminated => true,
            _ => false,
        }
    }

    /// Whether the loop has broken down for want of its channel.
    pub fn has_failed(&self) -> (b: bool)
        ensures
            b == (self@.phase is Failed),
    {
        match self.phase {
            Phase::Failed => true,
            _ => false,
        }
    }

    /// Whether `batch` may be handed to `accept`: the request that it
    /// comes down to does not name an index outside the session.
    pub fn admits(&self, batch: &Vec<NavigationRequest>) -> (ok: bool)
        ensures
            ok == !(coalesced(batch@) matches Some(NavigationRequest::Index(idx)) && idx
                >= self@.len),
    {
        match coalesce(batch) {
            Some(NavigationRequest::Index(idx)) => idx < self.len,
            _ => true,
        }
    }

    /// Takes in the requests received while idle, oldest first. Only the
    /// last one counts, and it becomes the index to resolve; an `Exit`
    /// anywhere among them ends the loop instead.
    pub fn accept(&mut self, batch: &Vec<NavigationRequest>)
        requires
            old(self)@.wf(),
            old(self)@.phase is Idle,
            coalesced(batch@) matches Some(NavigationRequest::Index(idx)) ==> idx < old(self)@.len,
        ensures
            final(self)@ == old(self)@.accepted(batch@),
            final(self)@.wf(),
    {
        proof {
            if let Some(request) = coalesced(batch@) {
                crate::request::lemma_target_stays_inside(
                    self.focus as int,
                    self.len as int,
                    request,
                );
            }
        }
        match coalesce(batch) {
            None => {},
            Some(NavigationRequest::Exit) => {
                self.phase = Phase::Terminated;
            },
            Some(request) => {
                let target = resolve_target(self.focus, self.len, request);
                self.phase = Phase::Resolving(target);
            },
        }
    }

    /// Breaks the loop off, whatever it was doing: for a channel that has
    /// lost its other end. The coordinator is `Failed` from then on, which
    /// no request can make it, `Exit` included.
    pub fn abort(&mut self)
        ensures
            final(self)@ == (CoordinatorView { phase: Phase::Failed, ..old(self)@ }),
            old(self)@.wf() ==> final(self)@.wf(),
    {
        self.phase = Phase::Failed;
    }

    /// Decides what the loop does next, claiming in `store` what it asks
    /// the loop to read.
    pub fn poll<T>(&mut self, store: &mut CacheStore<T>) -> (action: Action)
        requires
            old(self)@.wf(),
            old(store)@.len() == old(self)@.len,
        ensures
            polled(old(self)@, old(store)@, final(self)@, final(store)@, action),
            final(self)@.wf(),
            final(store)@.len() == final(self)@.len,
    {
        let idx: usize = match self.phase {
            Phase::Idle => {
                return Action::Receive;
            },
            Phase::Terminated => {
                return Action::Stop;
            },
            Phase::Failed => {
                return Action::Fail;
            },
            Phase::Warming => self.focus,
            Phase::Resolving(target) => target,
        };
        let notice: Notice = match store.peek(idx) {
            FileStatus::Unread => {
                let granted = store.try_claim(idx);
                assert(granted);
                return Action::Decode(idx);
            },
            FileStatus::Reading => {
                return Action::Wait(idx);
            },
            FileStatus::Read(_) => Notice::Ready(idx),
            FileStatus::Failed(reason) => Notice::Failed(reason.clone()),
        };
        match self.phase {
            Phase::Resolving(_) => {
                let batch = claim_window(store, idx, self.radius);
                self.focus = idx;
                self.phase = Phase::Idle;
                Action::Deliver(notice, batch)
            },
            _ => {
                self.phase = Phase::Idle;
                Action::Receive
            },
        }
    }
}

/// Sets up a session for `path_count` files: a store with one unread slot
/// per file, and a coordinator for it that starts by warming the file at
/// `start_index`. A session without files is refused, and nothing is made.
pub fn open_session<T>(path_count: usize, start_index: usize, radius: usize) -> (made: Result<
    (CacheStore<T>, Coordinator),
    ConstructionError,
>)
    requires
        path_count > 0 ==> start_index < path_count,
    ensures
        made is Err <==> path_count == 0,
        made matches Err(e) ==> e == ConstructionError::EmptyPathList,
        made matches Ok(session) ==> {
            &&& session.0@.len() == path_count
            &&& forall|i: int| 0 <= i < path_count ==> session.0@[i] is Unread
            &&& session.1@.wf()
            &&& session.1@ == (CoordinatorView {
                len: path_count as nat,
                radius: radius as nat,
                focus: start_index as nat,
                phase: Phase::Warming,
            })
        },
{
    match CacheStore::new(path_count) {
        Err(e) => Err(e),
        Ok(store) => match Coordinator::new(path_count, start_index, radius) {
            Err(e) => Err(e),
            Ok(coordinator) => Ok((store, coordinator)),
        },
    }
}

/// A poll only moves slots forward: it adds and removes none, no slot
/// falls back to an earlier stage, and a settled slot stays as it is. The
/// coordinator stays well formed, so the focus is always an index of the
/// session.
pub proof fn lemma_poll_moves_slots_forward<T>(
    pre: CoordinatorView,
    before: Slots<T>,
    post: CoordinatorView,
    after: Slots<T>,
    action: Action,
    idx: int,
)
    requires
        pre.wf(),
        before.len() == pre.len,
        polled(pre, before, post, after, action),
        0 <= idx < before.len(),
    ensures
        after.len() == before.len(),
        after[idx].stage() >= before[idx].stage(),
        before[idx].is_settled() ==> after[idx] == before[idx],
        post.wf(),
        post.len == pre.len,
        post.radius == pre.radius,
{
    let at: int = match pre.phase {
        Phase::Resolving(target) => target as int,
        _ => pre.focus as int,
    };
    crate::scheduler::lemma_batch_claims_slot_by_slot(before, pre.lo(at), pre.hi(at), idx);
}

/// A poll leaves the rest alone: the only slots that it changes are
/// unread ones that it claims, which are the one that it is after and
/// those of the window around a target that it delivers.
pub proof fn lemma_poll_changes_only_what_it_claims<T>(
    pre: CoordinatorView,
    before: Slots<T>,
    post: CoordinatorView,
    after: Slots<T>,
    action: Action,
    idx: int,
)
    requires
        pre.wf(),
        before.len() == pre.len,
        polled(pre, before, post, after, action),
        0 <= idx < before.len(),
        after[idx] != before[idx],
    ensures
        before[idx] is Unread,
        after[idx] is Reading,
        action matches Action::Decode(claimed) ==> idx == claimed,
        action is Deliver ==> (pre.phase matches Phase::Resolving(target) && pre.lo(target as int)
            <= idx < pre.hi(target as int)),
        action is Decode || action is Deliver,
{
}

/// What a poll asks to be read has just been claimed: the index of a
/// `Decode` and every index of a delivered batch were unread before the
/// poll and are `Reading` after it.
pub proof fn lemma_poll_claims_what_it_asks_for<T>(
    pre: CoordinatorView,
    before: Slots<T>,
    post: CoordinatorView,
    after: Slots<T>,
    action: Action,
)
    requires
        pre.wf(),
        before.len() == pre.len,
        polled(pre, before, post, after, action),
    ensures
        action matches Action::Decode(idx) ==> idx < before.len() && before[idx as int] is Unread
            && after[idx as int] is Reading,
        action matches Action::Deliver(_, batch) ==> forall|k: int|
            0 <= k < batch@.len() ==> (#[trigger] batch@[k]) < before.len()
                && before[batch@[k] as int] is Unread && after[batch@[k] as int] is Reading,
{
    match pre.phase {
        Phase::Resolving(target) => {
            let at = target as int;
            crate::planner::lemma_window_in_bounds(at, pre.len as int, pre.radius as int);
            crate::scheduler::lemma_batch_is_unread_and_ascending(before, pre.lo(at), pre.hi(at));
        },
        _ => {},
    }
}

/// The indices whose read `action` asks the loop to make or to start.
pub open spec fn asked(action: Action) -> Set<int> {
    match action {
        Action::Decode(idx) => set![idx as int],
        Action::Deliver(_, batch) => Set::new(
            |i: int| exists|k: int| 0 <= k < batch@.len() && batch@[k] == i,
        ),
        _ => Set::empty(),
    }
}

/// Whether `owed`, the reads that have been asked for and have not ended,
/// are the slots that are being read, no more and no less.
pub open spec fn owed_are_reading<T>(slots: Slots<T>, owed: Set<int>) -> bool {
    forall|i: int| owed.contains(i) <==> 0 <= i < slots.len() && slots[i] is Reading
}

/// The books stay balanced over a poll: when the reads owed before it
/// are the slots being read, then those and the reads that the poll asks
/// for are the slots being read after it, and it asks for none of them a
/// second time.
pub proof fn lemma_poll_owes_what_it_claims<T>(
    pre: CoordinatorView,
    before: Slots<T>,
    post: CoordinatorView,
    after: Slots<T>,
    action: Action,
    owed: Set<int>,
)
    requires
        pre.wf(),
        before.len() == pre.len,
        polled(pre, before, post, after, action),
        owed_are_reading(before, owed),
    ensures
        owed_are_reading(after, owed.union(asked(action))),
        owed.disjoint(asked(action)),
{
    match pre.phase {
        Phase::Resolving(target) => {
            let at = target as int;
            let lo = pre.lo(at);
            let hi = pre.hi(at);
            crate::planner::lemma_window_in_bounds(at, pre.len as int, pre.radius as int);
            if before[at].is_settled() {
                let batch = unread_between(before, lo, hi);
                crate::scheduler::lemma_batch_is_unread_and_ascending(before, lo, hi);
                assert forall|i: int| 0 <= i < after.len() && after[i] is Reading implies owed.union(
                    asked(action),
                ).contains(i) by {
                    if !(before[i] is Reading) {
                        crate::scheduler::lemma_batch_misses_nothing(before, lo, hi, i);
                        let k = choose|k: int| 0 <= k < batch.len() && batch[k] == i as usize;
                        assert(batch[k] == i);
                    }
                }
            }
        },
        _ => {},
    }
}

/// A read that is owed always finds its slot being read, so its outcome
/// can be recorded, and with that the read is owed no more.
pub proof fn lemma_owed_read_can_resolve<T>(
    slots: Slots<T>,
    owed: Set<int>,
    idx: int,
    outcome: Result<T, String>,
)
    requires
        owed_are_reading(slots, owed),
        owed.contains(idx),
    ensures
        0 <= idx < slots.len(),
        slots[idx] is Reading,
        owed_are_reading(crate::store::after_resolve(slots, idx, outcome), owed.remove(idx)),
{
}

/// `Exit` ends the loop whatever else was asked and whatever the store
/// holds: a batch with an `Exit` in it leaves the coordinator terminated,
/// and a terminated coordinator only ever says `Stop`, changing nothing.
pub proof fn lemma_exit_terminates<T>(
    pre: CoordinatorView,
    earlier: Seq<NavigationRequest>,
    later: Seq<NavigationRequest>,
    before: Slots<T>,
    post: CoordinatorView,
    after: Slots<T>,
    action: Action,
)
    requires
        polled(pre.accepted(earlier.push(NavigationRequest::Exit) + later), before, post, after, action),
    ensures
        pre.accepted(earlier.push(NavigationRequest::Exit) + later).phase is Terminated,
        action is Stop,
        post.phase is Terminated,
        after == before,
{
    crate::request::lemma_exit_wins(earlier, later);
}

/// A lost channel is a failure and not an exit: no batch of requests,
/// with or without an `Exit`, leaves the coordinator where `abort` does,
/// and from there every poll says `Fail`, never `Stop`, and changes
/// nothing.
pub proof fn lemma_lost_channel_is_no_exit<T>(
    pre: CoordinatorView,
    batch: Seq<NavigationRequest>,
    before: Slots<T>,
    post: CoordinatorView,
    after: Slots<T>,
    action: Action,
)
    requires
        !(pre.phase is Failed),
        polled((CoordinatorView { phase: Phase::Failed, ..pre }), before, post, after, action),
    ensures
        !(pre.accepted(batch).phase is Failed),
        pre.accepted(batch) != (CoordinatorView { phase: Phase::Failed, ..pre }),
        action is Fail,
        !(action is Stop),
        post.phase is Failed,
        after == before,
{
}

} // verus!
