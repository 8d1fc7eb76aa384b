//! File records, what clients see of them, and the errors of file requests.

use vstd::prelude::*;

verus! {

/// One stored file. `storage_path` is relative to the storage root and lies in the
/// owner's directory; `size_bytes` is the number of bytes that were written.
#[derive(Debug, Clone, PartialEq, Eq)]
pub struct File {
    pub id: String,
    pub user_id: String,
    pub original_name: String,
    pub mime_type: String,
    pub size_bytes: i64,
    pub storage_path: String,
    pub created_at: String,
}

/// What a client says of an upload. `size_bytes` is advisory and never recorded.
#[derive(Debug, Clone, PartialEq, Eq)]
pub struct FileMetadata {
    pub original_name: String,
    pub mime_type: String,
    pub size_bytes: i64,
    pub client_encryption_algo: String,
}

/// The part of a file record that clients may see: no owner, no storage path.
#[derive(Debug, Clone, PartialEq, Eq)]
pub struct FileResponse {
    pub id: String,
    pub original_name: String,
    pub mime_type: String,
    pub size_bytes: i64,
    pub created_at: String,
}

/// The public projection of a file record.
pub open spec fn response_of(f: File) -> FileResponse {
    FileResponse {
        id: f.id,
        original_name: f.original_name,
        mime_type: f.mime_type,
        size_bytes: f.size_bytes,
        created_at: f.created_at,
    }
}

impl From<File> for FileResponse {
    fn from(file: File) -> (r: FileResponse)
        ensures
            r == response_of(file),
    {
        FileResponse {
            id: file.id,
            original_name: file.original_name,
            mime_type: file.mime_type,
            size_bytes: file.size_bytes,
            created_at: file.created_at,
        }
    }
}

impl vstd::std_specs::convert::FromSpecImpl<File> for FileResponse {
    open spec fn obeys_from_spec() -> bool {
        true
    }

    open spec fn from_spec(file: File) -> FileResponse {
        response_of(file)
    }
}

/// Why a file request failed.
#[derive(Debug, Clone, PartialEq, Eq)]
pub enum FileError {
    /// The database reported an error; the text is for the log only.
    DatabaseError(String),
    NotFound,
    Unauthorized,
    StorageError,
    InvalidMetadata,
    /// An upload went past the size cap.
    PayloadTooLarge,
    InternalError,
}

impl FileError {
    /// The HTTP status of the error. Requests for files of other owners end in
    /// `NotFound`, so that existence is not revealed.
    pub fn status_code(&self) -> (r: u16)
        ensures
            r == match self {
                FileError::NotFound => 404u16,
                FileError::Unauthorized => 403u16,
                FileError::InvalidMetadata | FileError::PayloadTooLarge => 400u16,
                _ => 500u16,
            },
    {
        match self {
            FileError::NotFound => 404,
            FileError::Unauthorized => 403,
            FileError::InvalidMetadata | FileError::PayloadTooLarge => 400,
            FileError::DatabaseError(_) | FileError::StorageError | FileError::InternalError => 500,
        }
    }

    /// The message that a client sees; the database's own text is never part of it.
    pub fn message(&self) -> (r: &'static str)
        ensures
            r@ == match self {
                FileError::DatabaseError(_) => "Database error"@,
                FileError::NotFound => "File not found"@,
                FileError::Unauthorized => "You don't own this file"@,
                FileError::StorageError => "Storage error"@,
                FileError::InvalidMetadata => "Invalid metadata"@,
                FileError::PayloadTooLarge => "File too large"@,
                FileError::InternalError => "Internal server error"@,
            },
    {
        match self {
            FileError::DatabaseError(_) => "Database error",
            FileError::NotFound => "File not found",
            FileError::Unauthorized => "You don't own this file",
            FileError::StorageError => "Storage error",
            FileError::InvalidMetadata => "Invalid metadata",
            FileError::PayloadTooLarge => "File too large",
            FileError::InternalError => "Internal server error",
        }
    }
}

} // verus!
