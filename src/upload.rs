//! The decisions of an upload. The caller reads the multipart body and drives the
//! disk; it reports each field and chunk here and does what the answer says. The
//! blob is written under `<owner>/<generated id>.bin`, the size cap is checked as
//! each chunk arrives, and the record that is finally stored carries the number of
//! bytes actually received, whatever the metadata declared.

use vstd::prelude::*;
use crate::bindings::{is_uuid_text, new_uuid, rfc3339_now};
use crate::files::{File, FileError, FileMetadata};

verus! {

/// The largest upload accepted, in bytes (100 MiB).
pub const MAX_FILE_SIZE: u64 = 100 * 1024 * 1024;

/// A blob being written or already written: its generated id, its path relative to
/// the storage root, and the bytes accepted so far.
#[derive(Debug, Clone, PartialEq, Eq)]
pub struct Blob {
    pub id: String,
    pub storage_path: String,
    pub size: u64,
}

/// What to do with a chunk of the file field.
#[derive(Debug, Clone, Copy, PartialEq, Eq, Structural)]
pub enum ChunkVerdict {
    /// Append it to the blob.
    Write,
    /// Stop: remove the partial blob and end the request with the session's failure.
    Abort,
}

/// The state of one upload request.
#[derive(Debug, Clone, PartialEq, Eq)]
pub struct UploadSession {
    /// The authenticated owner.
    pub owner: String,
    /// The last metadata field received.
    pub metadata: Option<FileMetadata>,
    /// The blob of the last file field.
    pub blob: Option<Blob>,
    /// A file field is being streamed into `blob`.
    pub writing: bool,
    /// Set once the request has failed; it never clears.
    pub failure: Option<FileError>,
}

/// The storage path of a blob: the owner's directory, then `<id>.bin`.
pub open spec fn blob_path(owner: Seq<char>, id: Seq<char>) -> Seq<char> {
    owner + "/"@ + id + ".bin"@
}

/// The session after one chunk of `len` bytes.
pub open spec fn chunk_step(s: UploadSession, len: int) -> UploadSession {
    if s.failure is None && s.writing && s.blob is Some {
        let b = s.blob->0;
        if b.size + len > MAX_FILE_SIZE {
            UploadSession { writing: false, failure: Some(FileError::PayloadTooLarge), ..s }
        } else {
            UploadSession { blob: Some(Blob { size: (b.size + len) as u64, ..b }), ..s }
        }
    } else {
        s
    }
}

/// The answer to one chunk of `len` bytes.
pub open spec fn chunk_verdict(s: UploadSession, len: int) -> ChunkVerdict {
    if s.failure is None && s.writing && s.blob is Some && s.blob->0.size + len <= MAX_FILE_SIZE {
        ChunkVerdict::Write
    } else {
        ChunkVerdict::Abort
    }
}

/// The session after the file field has ended and its blob has been flushed.
pub open spec fn end_step(s: UploadSession) -> UploadSession {
    if s.failure is None {
        UploadSession { writing: false, ..s }
    } else {
        s
    }
}

/// The session after a sequence of chunks.
pub open spec fn after_chunks(s: UploadSession, lens: Seq<usize>) -> UploadSession
    decreases lens.len(),
{
    if lens.len() == 0 {
        s
    } else {
        chunk_step(after_chunks(s, lens.drop_last()), lens.last() as int)
    }
}

/// The number of bytes in a sequence of chunks.
pub open spec fn total_len(lens: Seq<usize>) -> int
    decreases lens.len(),
{
    if lens.len() == 0 {
        0
    } else {
        total_len(lens.drop_last()) + lens.last()
    }
}

/// Why a session cannot be recorded, if it cannot.
pub open spec fn upload_error(s: UploadSession) -> Option<FileError> {
    match s.failure {
        Some(e) => Some(e),
        None => if s.writing || s.metadata is None || s.blob is None {
            Some(FileError::InvalidMetadata)
        } else if s.blob->0.size > MAX_FILE_SIZE {
            Some(FileError::PayloadTooLarge)
        } else {
            None
        },
    }
}

/// The record of a completed session: the blob's id, path and received size, the
/// owner, and the name and type from the metadata.
pub open spec fn recorded_file(s: UploadSession, created_at: String) -> File {
    File {
        id: s.blob->0.id,
        user_id: s.owner,
        original_name: s.metadata->0.original_name,
        mime_type: s.metadata->0.mime_type,
        size_bytes: s.blob->0.size as i64,
        storage_path: s.blob->0.storage_path,
        created_at,
    }
}

/// What recording a session gives.
pub open spec fn upload_outcome(s: UploadSession, created_at: String) -> Result<File, FileError> {
    match upload_error(s) {
        Some(e) => Err(e),
        None => Ok(recorded_file(s, created_at)),
    }
}

/// The relative path of a blob: `<owner>/<file_id>.bin`.
pub fn storage_path(owner: &str, file_id: &str) -> (r: String)
    ensures
        r@ == blob_path(owner@, file_id@),
{
    let mut path = String::from_str(owner);
    path.append("/");
    path.append(file_id);
    path.append(".bin");
    path
}

impl UploadSession {
    /// A session for `owner` that has received nothing yet.
    pub fn new(owner: &str) -> (r: UploadSession)
        ensures
            r.owner@ == owner@,
            r.metadata is None,
            r.blob is None,
            !r.writing,
            r.failure is None,
    {
        UploadSession {
            owner: String::from_str(owner),
            metadata: None,
            blob: None,
            writing: false,
            failure: None,
        }
    }

    /// Takes the metadata field, or `None` where it could not be read or parsed,
    /// which fails the request.
    pub fn accept_metadata(&mut self, metadata: Option<FileMetadata>)
        ensures
            old(self).failure is Some ==> *final(self) == *old(self),
            old(self).failure is None && metadata is None ==> *final(self) == (UploadSession {
                failure: Some(FileError::InvalidMetadata),
                writing: false,
                ..*old(self)
            }),
            old(self).failure is None && metadata is Some ==> *final(self) == (UploadSession {
                metadata,
                ..*old(self)
            }),
    {
        if self.failure.is_none() {
            match metadata {
                None => {
                    self.failure = Some(FileError::InvalidMetadata);
                    self.writing = false;
                },
                Some(m) => {
                    self.metadata = Some(m);
                },
            }
        }
    }

    /// Starts a file field: a fresh id is generated and the relative path of the
    /// new blob is returned for the caller to create. `None` once the request has
    /// failed.
    pub fn begin_file(&mut self) -> (r: Option<String>)
        ensures
            old(self).failure is Some ==> *final(self) == *old(self) && r is None,
            old(self).failure is None ==> {
                &&& r is Some
                &&& final(self).blob is Some
                &&& is_uuid_text(final(self).blob->0.id@)
                &&& final(self).blob->0.storage_path@ == blob_path(
                    old(self).owner@,
                    final(self).blob->0.id@,
                )
                &&& r->0@ == final(self).blob->0.storage_path@
                &&& final(self).blob->0.size == 0
                &&& final(self).writing
                &&& final(self).owner == old(self).owner
                &&& final(self).metadata == old(self).metadata
                &&& final(self).failure is None
            },
    {
        if self.failure.is_some() {
            return None;
        }
        let id = new_uuid();
        let path = storage_path(self.owner.as_str(), id.as_str());
        let returned = path.clone();
        self.blob = Some(Blob { id, storage_path: path, size: 0 });
        self.writing = true;
        Some(returned)
    }

    /// Takes a chunk of `len` bytes of the file field. A chunk that would take the
    /// blob past `MAX_FILE_SIZE` is refused and fails the request.
    pub fn accept_chunk(&mut self, len: usize) -> (r: ChunkVerdict)
        ensures
            *final(self) == chunk_step(*old(self), len as int),
            r == chunk_verdict(*old(self), len as int),
    {
        if self.failure.is_some() || !self.writing {
            return ChunkVerdict::Abort;
        }
        let fits = match &self.blob {
            None => {
                return ChunkVerdict::Abort;
            },
            Some(b) => b.size <= MAX_FILE_SIZE && (len as u64) <= MAX_FILE_SIZE - b.size,
        };
        if !fits {
            self.writing = false;
            self.failure = Some(FileError::PayloadTooLarge);
            return ChunkVerdict::Abort;
        }
        match &mut self.blob {
            Some(b) => {
                b.size = b.size + len as u64;
            },
            None => {},
        }
        ChunkVerdict::Write
    }

    /// The file field has ended and its blob is flushed.
    pub fn end_file(&mut self)
        ensures
            *final(self) == end_step(*old(self)),
    {
        if self.failure.is_none() {
            self.writing = false;
        }
    }

    /// A disk operation failed: the request fails with `StorageError` unless it had
    /// already failed.
    pub fn storage_failed(&mut self)
        ensures
            old(self).failure is Some ==> *final(self) == *old(self),
            old(self).failure is None ==> *final(self) == (UploadSession {
                failure: Some(FileError::StorageError),
                writing: false,
                ..*old(self)
            }),
    {
        if self.failure.is_none() {
            self.failure = Some(FileError::StorageError);
            self.writing = false;
        }
    }

    /// The record to insert, stamped `created_at`, or why there is none.
    pub fn record(self, created_at: String) -> (r: Result<File, FileError>)
        ensures
            r == upload_outcome(self, created_at),
    {
        if let Some(e) = self.failure {
            return Err(e);
        }
        if self.writing {
            return Err(FileError::InvalidMetadata);
        }
        match (self.metadata, self.blob) {
            (Some(m), Some(b)) => {
                if b.size > MAX_FILE_SIZE {
                    Err(FileError::PayloadTooLarge)
                } else {
                    Ok(File {
                        id: b.id,
                        user_id: self.owner,
                        original_name: m.original_name,
                        mime_type: m.mime_type,
                        size_bytes: b.size as i64,
                        storage_path: b.storage_path,
                        created_at,
                    })
                }
            },
            _ => Err(FileError::InvalidMetadata),
        }
    }

    /// The record to insert, stamped with the current time, or why there is none.
    pub fn finish(self) -> (r: Result<File, FileError>)
        ensures
            match upload_error(self) {
                Some(e) => r == Err::<File, FileError>(e),
                None => r is Ok && r->Ok_0 == recorded_file(self, r->Ok_0.created_at),
            },
    {
        let now = rfc3339_now();
        self.record(now)
    }
}

proof fn lemma_total_len_nonneg(lens: Seq<usize>)
    ensures
        total_len(lens) >= 0,
    decreases lens.len(),
{
    if lens.len() > 0 {
        lemma_total_len_nonneg(lens.drop_last());
    }
}

/// The size cap is inclusive and is checked as bytes arrive: on a file field that
/// has just begun, chunks that add up to at most `MAX_FILE_SIZE` bytes are all
/// accepted and counted, and once they add up to more the request has failed with
/// `PayloadTooLarge`, so that no record can come of it.
pub proof fn lemma_size_cap(s: UploadSession, lens: Seq<usize>)
    requires
        s.failure is None,
        s.writing,
        s.blob is Some,
        s.blob->0.size == 0,
    ensures
        total_len(lens) <= MAX_FILE_SIZE ==> {
            let t = after_chunks(s, lens);
            &&& t.failure is None
            &&& t.writing
            &&& t.blob is Some
            &&& t.blob->0.size == total_len(lens)
            &&& t.blob->0.id == s.blob->0.id
            &&& t.blob->0.storage_path == s.blob->0.storage_path
            &&& t.owner == s.owner
            &&& t.metadata == s.metadata
        },
        total_len(lens) > MAX_FILE_SIZE ==> {
            let t = after_chunks(s, lens);
            &&& t.failure == Some(FileError::PayloadTooLarge)
            &&& forall|created_at: String|
                #[trigger] upload_outcome(end_step(t), created_at) == Err::<File, FileError>(
                    FileError::PayloadTooLarge,
                )
        },
    decreases lens.len(),
{
    if lens.len() > 0 {
        let prefix = lens.drop_last();
        lemma_size_cap(s, prefix);
        lemma_total_len_nonneg(prefix);
    }
}

/// The size recorded is the number of bytes received: for any metadata, whatever
/// size it declares, a file field whose chunks add up to at most `MAX_FILE_SIZE`
/// bytes is recorded with exactly that size, under the blob's id and path.
pub proof fn lemma_recorded_size(s: UploadSession, lens: Seq<usize>, created_at: String)
    requires
        s.failure is None,
        s.writing,
        s.blob is Some,
        s.blob->0.size == 0,
        s.metadata is Some,
        total_len(lens) <= MAX_FILE_SIZE,
    ensures
        upload_outcome(end_step(after_chunks(s, lens)), created_at) is Ok,
        upload_outcome(end_step(after_chunks(s, lens)), created_at)->Ok_0.size_bytes == total_len(
            lens,
        ),
        upload_outcome(end_step(after_chunks(s, lens)), created_at)->Ok_0.id == s.blob->0.id,
        upload_outcome(end_step(after_chunks(s, lens)), created_at)->Ok_0.storage_path
            == s.blob->0.storage_path,
        upload_outcome(end_step(after_chunks(s, lens)), created_at)->Ok_0.user_id == s.owner,
{
    lemma_size_cap(s, lens);
    lemma_total_len_nonneg(lens);
}

} // verus!
