//! The load state of one file.

use vstd::prelude::*;

verus! {

/// What is known of one file: not looked at yet, being read by someone,
/// read with its payload, or failed with the reason.
///
/// A status only ever moves forward: `Unread`, then `Reading`, then one of
/// `Read` and `Failed`, which are final.
#[derive(Clone, Debug, PartialEq, Eq)]
pub enum FileStatus<T, E = String> {
    Unread,
    Reading,
    Read(T),
    Failed(E),
}

impl<T, E> FileStatus<T, E> {
    /// How far along its life the status is: 0 for `Unread`, 1 for
    /// `Reading`, 2 for the two final states.
    pub open spec fn stage(self) -> nat {
        match self {
            FileStatus::Unread => 0,
            FileStatus::Reading => 1,
            FileStatus::Read(_) => 2,
            FileStatus::Failed(_) => 2,
        }
    }

    /// Whether the status is final: read, or failed.
    pub open spec fn is_settled(self) -> bool {
        self is Read || self is Failed
    }

    /// The same status over borrows of the payload and of the reason.
    pub open spec fn borrowed(&self) -> FileStatus<&T, &E> {
        match self {
            FileStatus::Unread => FileStatus::Unread,
            FileStatus::Reading => FileStatus::Reading,
            FileStatus::Read(x) => FileStatus::Read(x),
            FileStatus::Failed(e) => FileStatus::Failed(e),
        }
    }

    /// Looks at the status without taking what it holds.
    pub fn as_ref(&self) -> (r: FileStatus<&T, &E>)
        ensures
            r == self.borrowed(),
    {
        match self {
            FileStatus::Read(x) => FileStatus::Read(x),
            FileStatus::Unread => FileStatus::Unread,
            FileStatus::Reading => FileStatus::Reading,
            FileStatus::Failed(x) => FileStatus::Failed(x),
        }
    }

    /// Whether nobody has started on the file.
    pub fn is_unread(&self) -> (b: bool)
        ensures
            b == (*self is Unread),
    {
        match self {
            FileStatus::Unread => true,
            _ => false,
        }
    }

    /// Whether someone is reading the file right now.
    pub fn is_reading(&self) -> (b: bool)
        ensures
            b == (*self is Reading),
    {
        match self {
            FileStatus::Reading => true,
            _ => false,
        }
    }
}

/// `std::io::Error`, the reason why a file could not be read.
#[verifier::external_type_specification]
#[verifier::external_body]
pub struct ExIoError(std::io::Error);

/// The outcome of reading a file with the reason of a failure put in
/// words, as a store takes it: the words are those that the error
/// displays as.
pub fn describe_read<T>(read: Result<T, std::io::Error>) -> (outcome: Result<T, String>)
    ensures
        read matches Ok(x) ==> outcome == Ok::<T, String>(x),
        read matches Err(error) ==> outcome matches Err(words)
            && vstd::string::to_string_from_display_ensures::<std::io::Error>(&error, words),
{
    match read {
        Ok(x) => Ok(x),
        Err(reason) => Err(reason.to_string()),
    }
}

/// The final status that the outcome of a read leaves behind.
pub open spec fn settled_status<T>(outcome: Result<T, String>) -> FileStatus<T, String> {
    match outcome {
        Ok(x) => FileStatus::Read(x),
        Err(reason) => FileStatus::Failed(reason),
    }
}

impl<T> From<Result<T, String>> for FileStatus<T, String> {
    fn from(res: Result<T, String>) -> (status: Self) {
        match res {
            Ok(x) => FileStatus::Read(x),
            Err(x) => FileStatus::Failed(x),
        }
    }
}

impl<T> vstd::std_specs::convert::FromSpecImpl<Result<T, String>> for FileStatus<T, String> {
    open spec fn obeys_from_spec() -> bool {
        true
    }

    open spec fn from_spec(res: Result<T, String>) -> Self {
        settled_status(res)
    }
}

/// The outcome of a read always settles the status, and what it settles
/// on keeps the payload or the reason of the outcome.
pub proof fn lemma_outcome_settles<T>(outcome: Result<T, String>)
    ensures
        settled_status(outcome).is_settled(),
        settled_status(outcome).stage() == 2,
        outcome matches Ok(x) ==> settled_status(outcome) == FileStatus::<T, String>::Read(x),
        outcome matches Err(reason) ==> settled_status(outcome) == FileStatus::<T, String>::Failed(
            reason,
        ),
{
}

} // verus!
