//! The consumer's side of a session: what there is to show, given what a
//! look at the channel of notices found.

use crate::coordinator::Notice;
use crate::status::FileStatus;
use crate::store::{CacheStore, Slots};
use vstd::prelude::*;

verus! {

/// What a look at the channel of notices found, without waiting.
#[derive(Debug, PartialEq, Eq)]
pub enum Received {
    /// No notice is waiting.
    Nothing,
    /// The other end of the channel is gone.
    Lost,
    /// The oldest notice that was waiting.
    Notice(Notice),
}

/// Why there is no picture to show where one was asked for.
#[derive(Debug, PartialEq, Eq)]
pub enum AnswerError {
    /// The loop that answers requests is gone. Nothing will be answered
    /// any more.
    ChannelLost,
    /// The file that was asked for could not be read, for this reason.
    /// Other files can still be asked for.
    Decode(String),
}

impl AnswerError {
    /// The error in words: the reason of a failed read as it was given.
    pub fn message(&self) -> (text: String)
        ensures
            *self is ChannelLost ==> text@
                == "Found disconnected channel while checking if any image was available"@,
            *self matches AnswerError::Decode(reason) ==> text == reason,
    {
        match self {
            AnswerError::ChannelLost => {
                "Found disconnected channel while checking if any image was available".to_string()
            },
            AnswerError::Decode(reason) => reason.clone(),
        }
    }

    /// Whether the session is over with this error. A failed read is not
    /// the end: the consumer can ask for another file.
    pub fn is_fatal(&self) -> (fatal: bool)
        ensures
            fatal == (*self is ChannelLost),
    {
        match self {
            AnswerError::ChannelLost => true,
            AnswerError::Decode(_) => false,
        }
    }
}

/// What `notice` announces, given the slots of the store: the reason of
/// the failure if it reports one, else the payload of the slot that it
/// names, if that is a slot of the store and is read, and nothing if it
/// is not.
pub open spec fn announcement<T>(slots: Slots<T>, notice: Notice) -> Result<Option<T>, String> {
    match notice {
        Notice::Failed(reason) => Err(reason),
        Notice::Ready(idx) => if idx < slots.len() && slots[idx as int] is Read {
            Ok(Some(slots[idx as int]->Read_0))
        } else {
            Ok(None)
        },
    }
}

/// What there is to show, given the slots of the store and what a look
/// at the channel found: nothing when no notice was waiting, what a
/// notice announces, and an error for a lost channel and for a read that
/// failed, with its reason.
pub open spec fn shown<T>(slots: Slots<T>, received: Received) -> Result<Option<T>, AnswerError> {
    match received {
        Received::Nothing => Ok(None),
        Received::Lost => Err(AnswerError::ChannelLost),
        Received::Notice(notice) => match announcement(slots, notice) {
            Ok(payload) => Ok(payload),
            Err(reason) => Err(AnswerError::Decode(reason)),
        },
    }
}

/// An answer over a borrowed payload, with the payload itself in place of
/// the borrow.
pub open spec fn unborrowed<T, E>(result: Result<Option<&T>, E>) -> Result<Option<T>, E> {
    match result {
        Ok(Some(payload)) => Ok(Some(*payload)),
        Ok(None) => Ok(None),
        Err(e) => Err(e),
    }
}

/// Looks up what `notice` announces in `store`. A notice of a failed read
/// gives its reason as an error, never as nothing.
pub fn announced<'a, T>(store: &'a CacheStore<T>, notice: &Notice) -> (result: Result<
    Option<&'a T>,
    String,
>)
    ensures
        unborrowed(result) == announcement(store@, *notice),
{
    match notice {
        Notice::Ready(idx) => Ok(store.loaded(*idx)),
        Notice::Failed(reason) => Err(reason.clone()),
    }
}

/// Decides what there is to show, given what a look at the channel of
/// notices found.
pub fn answer<'a, T>(store: &'a CacheStore<T>, received: &Received) -> (result: Result<
    Option<&'a T>,
    AnswerError,
>)
    ensures
        unborrowed(result) == shown(store@, *received),
{
    match received {
        Received::Nothing => Ok(None),
        Received::Lost => Err(AnswerError::ChannelLost),
        Received::Notice(notice) => match announced(store, notice) {
            Ok(payload) => Ok(payload),
            Err(reason) => Err(AnswerError::Decode(reason)),
        },
    }
}

/// A failure never passes for silence: whatever the store holds, a notice
/// of a failed read is answered with an error that carries its reason,
/// and a lost channel with an error of its own, while an empty channel is
/// answered with nothing and no error.
pub proof fn lemma_failure_is_never_silent<T>(slots: Slots<T>, received: Received)
    ensures
        shown(slots, received) is Err <==> (received is Lost || received matches Received::Notice(
            Notice::Failed(_),
        )),
        received matches Received::Notice(Notice::Failed(reason)) ==> shown(slots, received)
            == Err::<Option<T>, AnswerError>(AnswerError::Decode(reason)),
        received is Lost ==> shown(slots, received) == Err::<Option<T>, AnswerError>(
            AnswerError::ChannelLost,
        ),
        received is Nothing ==> shown(slots, received) == Ok::<Option<T>, AnswerError>(None),
{
}

/// What is shown is what the store holds: a payload is only ever shown
/// for a notice that names a read slot of the store, and it is the
/// payload of that slot.
pub proof fn lemma_shown_is_what_the_store_holds<T>(slots: Slots<T>, received: Received, payload: T)
    requires
        shown(slots, received) == Ok::<Option<T>, AnswerError>(Some(payload)),
    ensures
        received matches Received::Notice(Notice::Ready(idx)) && idx < slots.len()
            && slots[idx as int] == FileStatus::<T, String>::Read(payload),
{
}

} // verus!
