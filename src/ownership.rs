//! Owner-scoped access. A record is handed out, and deleted, only for its owner; a
//! record of another owner is reported as absent, so that its existence is not
//! revealed. Deleting removes the blob first and the row after, and only reports
//! success when both are gone.

use vstd::prelude::*;
use crate::files::{File, FileError};

verus! {

/// The record that a lookup by id and owner may hand out: one that was found and
/// belongs to the owner; anything else is `NotFound`.
pub open spec fn owned_result(found: Option<File>, owner: Seq<char>) -> Result<File, FileError> {
    match found {
        Some(f) => if f.user_id@ == owner {
            Ok(f)
        } else {
            Err(FileError::NotFound)
        },
        None => Err(FileError::NotFound),
    }
}

/// The record found for a request of `owner`, if it is theirs.
pub fn require_owned(found: Option<File>, owner: &str) -> (r: Result<File, FileError>)
    ensures
        r == owned_result(found, owner@),
{
    match found {
        None => Err(FileError::NotFound),
        Some(f) => {
            let requester = String::from_str(owner);
            if f.user_id == requester {
                Ok(f)
            } else {
                Err(FileError::NotFound)
            }
        },
    }
}

/// The steps of deleting a file on behalf of its owner.
#[derive(Debug, Clone, PartialEq, Eq)]
pub enum Deletion {
    /// Waiting for the record looked up by id and owner.
    Lookup { owner: String },
    /// The caller is to remove the blob at the record's storage path.
    RemovingBlob { file: File },
    /// The caller is to delete the record's row, by id and owner.
    DeletingRow { file: File },
    /// Blob and row are gone.
    Deleted,
    /// The deletion ended with this error.
    Failed { error: FileError },
}

/// The step after the lookup.
pub open spec fn lookup_step(d: Deletion, found: Option<File>) -> Deletion {
    match d {
        Deletion::Lookup { owner } => match owned_result(found, owner@) {
            Ok(f) => Deletion::RemovingBlob { file: f },
            Err(e) => Deletion::Failed { error: e },
        },
        _ => d,
    }
}

/// The step after the blob removal; when it failed the row is left alone.
pub open spec fn blob_step(d: Deletion, removed: bool) -> Deletion {
    match d {
        Deletion::RemovingBlob { file } => if removed {
            Deletion::DeletingRow { file }
        } else {
            Deletion::Failed { error: FileError::StorageError }
        },
        _ => d,
    }
}

/// The step after the row deletion, which reports whether a row was removed.
pub open spec fn row_step(d: Deletion, outcome: Result<bool, String>) -> Deletion {
    match d {
        Deletion::DeletingRow { .. } => match outcome {
            Ok(true) => Deletion::Deleted,
            Ok(false) => Deletion::Failed { error: FileError::NotFound },
            Err(e) => Deletion::Failed { error: FileError::DatabaseError(e) },
        },
        _ => d,
    }
}

impl Deletion {
    /// A deletion requested by `owner`.
    pub fn start(owner: &str) -> (r: Deletion)
        ensures
            r matches Deletion::Lookup { owner: o } && o@ == owner@,
    {
        Deletion::Lookup { owner: String::from_str(owner) }
    }

    /// Takes the record that the lookup by id and owner found.
    pub fn on_lookup(self, found: Option<File>) -> (r: Deletion)
        ensures
            r == lookup_step(self, found),
    {
        match self {
            Deletion::Lookup { owner } => match require_owned(found, owner.as_str()) {
                Ok(f) => Deletion::RemovingBlob { file: f },
                Err(e) => Deletion::Failed { error: e },
            },
            other => other,
        }
    }

    /// Takes whether the blob was removed.
    pub fn on_blob_removed(self, removed: bool) -> (r: Deletion)
        ensures
            r == blob_step(self, removed),
    {
        match self {
            Deletion::RemovingBlob { file } => if removed {
                Deletion::DeletingRow { file }
            } else {
                Deletion::Failed { error: FileError::StorageError }
            },
            other => other,
        }
    }

    /// Takes the outcome of the row deletion: whether a row was removed, or the
    /// database's error.
    pub fn on_row_deleted(self, outcome: Result<bool, String>) -> (r: Deletion)
        ensures
            r == row_step(self, outcome),
    {
        match self {
            Deletion::DeletingRow { file } => match outcome {
                Ok(true) => Deletion::Deleted,
                Ok(false) => Deletion::Failed { error: FileError::NotFound },
                Err(e) => Deletion::Failed { error: FileError::DatabaseError(e) },
            },
            other => other,
        }
    }

    /// How the deletion ended, once it has.
    pub fn outcome(&self) -> (r: Option<Result<(), FileError>>)
        ensures
            r == match self {
                Deletion::Deleted => Some(Ok::<(), FileError>(())),
                Deletion::Failed { error } => Some(Err::<(), FileError>(*error)),
                _ => None::<Result<(), FileError>>,
            },
    {
        match self {
            Deletion::Deleted => Some(Ok(())),
            Deletion::Failed { error } => Some(Err(error.clone_error())),
            _ => None,
        }
    }
}

impl FileError {
    /// A copy of the error.
    pub(crate) fn clone_error(&self) -> (r: FileError)
        ensures
            r == *self,
    {
        match self {
            FileError::DatabaseError(e) => FileError::DatabaseError(e.clone()),
            FileError::NotFound => FileError::NotFound,
            FileError::Unauthorized => FileError::Unauthorized,
            FileError::StorageError => FileError::StorageError,
            FileError::InvalidMetadata => FileError::InvalidMetadata,
            FileError::PayloadTooLarge => FileError::PayloadTooLarge,
            FileError::InternalError => FileError::InternalError,
        }
    }
}

/// A record of another owner is never handed out, and a deletion requested by
/// another owner fails with `NotFound` before any blob or row is touched, whatever
/// the later steps report.
pub proof fn lemma_other_owner_untouched(
    owner: Seq<char>,
    d: Deletion,
    f: File,
    removed: bool,
    outcome: Result<bool, String>,
)
    requires
        d matches Deletion::Lookup { owner: o } && o@ == owner,
        f.user_id@ != owner,
    ensures
        owned_result(Some(f), owner) == Err::<File, FileError>(FileError::NotFound),
        lookup_step(d, Some(f)) == (Deletion::Failed { error: FileError::NotFound }),
        row_step(blob_step(lookup_step(d, Some(f)), removed), outcome) == (Deletion::Failed {
            error: FileError::NotFound,
        }),
{
}

/// A deletion ends in `Deleted` only when the record was found for its owner, its
/// blob was removed, and then its row was removed; a record that is absent, or
/// whose blob could not be removed, leaves the row in place.
pub proof fn lemma_deleted_means_blob_and_row_gone(
    d: Deletion,
    found: Option<File>,
    removed: bool,
    outcome: Result<bool, String>,
)
    requires
        d is Lookup,
    ensures
        row_step(blob_step(lookup_step(d, found), removed), outcome) == Deletion::Deleted ==> {
            &&& found is Some
            &&& owned_result(found, d->owner@) is Ok
            &&& removed
            &&& outcome == Ok::<bool, String>(true)
        },
        found is None ==> row_step(blob_step(lookup_step(d, found), removed), outcome) == (
        Deletion::Failed { error: FileError::NotFound }),
        !removed ==> !(blob_step(lookup_step(d, found), removed) is DeletingRow),
{
}

} // verus!
