//! The cache store: one slot per file, indexed like the list of paths.
//!
//! The store is a plain owned value. Whoever shares it between threads
//! wraps it in a lock and calls `peek` under a read lock, `try_claim` and
//! `resolve` under a write lock; a decode never happens inside either.

use crate::status::{settled_status, FileStatus};
use vstd::prelude::*;

verus! {

/// The slots of a store, as contracts see them.
pub type Slots<T> = Seq<FileStatus<T, String>>;

/// The slots after a claim of `idx`: an unread slot becomes `Reading`,
/// any other slot, and any index outside the store, leaves them as they are.
pub open spec fn after_claim<T>(slots: Slots<T>, idx: int) -> Slots<T> {
    if 0 <= idx < slots.len() && slots[idx] is Unread {
        slots.update(idx, FileStatus::Reading)
    } else {
        slots
    }
}

/// The slots after the read of `idx` ended in `outcome`.
pub open spec fn after_resolve<T>(slots: Slots<T>, idx: int, outcome: Result<T, String>) -> Slots<
    T,
> {
    slots.update(idx, settled_status(outcome))
}

/// Why a session could not be set up.
#[derive(Debug, Clone, Copy, PartialEq, Eq, Structural)]
pub enum ConstructionError {
    /// There is no file to show.
    EmptyPathList,
}

impl ConstructionError {
    /// The error in words.
    pub fn message(&self) -> (text: String)
        ensures
            text@ == "The list of images to read cannot be empty"@,
    {
        "The list of images to read cannot be empty".to_string()
    }
}

/// One slot per file of the session, each with the load state of its file.
pub struct CacheStore<T> {
    slots: Vec<FileStatus<T, String>>,
}

impl<T> View for CacheStore<T> {
    type V = Seq<FileStatus<T, String>>;

    closed spec fn view(&self) -> Seq<FileStatus<T, String>> {
        self.slots@
    }
}

impl<T> CacheStore<T> {
    /// A store of `len` slots, one per path, none of them looked at yet.
    /// A store for no path at all is refused.
    pub fn new(len: usize) -> (made: Result<Self, ConstructionError>)
        ensures
            made is Err <==> len == 0,
            made matches Err(e) ==> e == ConstructionError::EmptyPathList,
            made matches Ok(store) ==> store@.len() == len && forall|i: int|
                0 <= i < len ==> store@[i] is Unread,
    {
        if len == 0 {
            return Err(ConstructionError::EmptyPathList);
        }
        let mut slots: Vec<FileStatus<T, String>> = Vec::new();
        let mut i: usize = 0;
        while i < len
            invariant
                i <= len,
                slots@.len() == i,
                forall|j: int| 0 <= j < i ==> slots@[j] is Unread,
            decreases len - i,
        {
            slots.push(FileStatus::Unread);
            i = i + 1;
        }
        Ok(CacheStore { slots })
    }

    /// Number of slots, which is the number of files of the session.
    pub fn len(&self) -> (n: usize)
        ensures
            n == self@.len(),
    {
        self.slots.len()
    }

    /// The state of slot `idx`, over borrows of what it holds.
    pub fn peek(&self, idx: usize) -> (slot: FileStatus<&T, &String>)
        requires
            idx < self@.len(),
        ensures
            slot == self@[idx as int].borrowed(),
    {
        self.slots[idx].as_ref()
    }

    /// The payload of slot `idx` if its file has been read, and nothing
    /// for any other state and for an index outside the store.
    pub fn loaded(&self, idx: usize) -> (payload: Option<&T>)
        ensures
            payload.is_some() == (idx < self@.len() && self@[idx as int] is Read),
            payload matches Some(p) ==> self@[idx as int] == FileStatus::<T, String>::Read(*p),
    {
        if idx < self.slots.len() {
            match &self.slots[idx] {
                FileStatus::Read(x) => Some(x),
                _ => None,
            }
        } else {
            None
        }
    }

    /// Takes the exclusive right to read file `idx`: granted when, and
    /// only when, the slot is unread, and the slot is `Reading` from then
    /// on. A refused claim changes nothing.
    pub fn try_claim(&mut self, idx: usize) -> (granted: bool)
        requires
            idx < old(self)@.len(),
        ensures
            granted == (old(self)@[idx as int] is Unread),
            final(self)@ == after_claim(old(self)@, idx as int),
    {
        if self.slots[idx].is_unread() {
            self.slots[idx] = FileStatus::Reading;
            true
        } else {
            false
        }
    }

    /// Ends the read of file `idx` with its outcome. Only the holder of
    /// the claim calls this, once, so the slot is `Reading` when it does.
    pub fn resolve(&mut self, idx: usize, outcome: Result<T, String>)
        requires
            idx < old(self)@.len(),
            old(self)@[idx as int] is Reading,
        ensures
            final(self)@ == after_resolve(old(self)@, idx as int, outcome),
    {
        self.slots[idx] = FileStatus::from(outcome);
    }
}

} // verus!
