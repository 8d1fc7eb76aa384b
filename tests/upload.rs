use vaultfs::{
    storage_path, ChunkVerdict, FileError, FileMetadata, FileResponse, UploadSession,
    MAX_FILE_SIZE,
};

fn metadata(declared: i64) -> FileMetadata {
    FileMetadata {
        original_name: "photo.jpg".to_string(),
        mime_type: "image/jpeg".to_string(),
        size_bytes: declared,
        client_encryption_algo: "AES-GCM".to_string(),
    }
}

fn is_uuid(s: &str) -> bool {
    s.len() == 36
        && s.chars().enumerate().all(|(i, c)| {
            if i == 8 || i == 13 || i == 18 || i == 23 {
                c == '-'
            } else {
                c.is_ascii_hexdigit() && !c.is_ascii_uppercase()
            }
        })
}

#[test]
fn storage_path_nests_under_owner() {
    assert_eq!(storage_path("owner-1", "abc"), "owner-1/abc.bin");
}

#[test]
fn begin_file_names_blob_by_fresh_id() {
    let mut s = UploadSession::new("alice");
    let path = s.begin_file().expect("path");
    let blob = s.blob.clone().expect("blob");
    assert!(is_uuid(&blob.id));
    assert_eq!(path, format!("alice/{}.bin", blob.id));
    assert_eq!(blob.storage_path, path);
    assert_eq!(blob.size, 0);
    assert!(s.writing);
    let mut t = UploadSession::new("alice");
    t.begin_file();
    assert_ne!(t.blob.unwrap().id, blob.id);
}

#[test]
fn upload_of_exactly_cap_succeeds() {
    let mut s = UploadSession::new("alice");
    s.accept_metadata(Some(metadata(5)));
    s.begin_file().unwrap();
    let chunk = 1024 * 1024;
    for _ in 0..100 {
        assert_eq!(s.accept_chunk(chunk), ChunkVerdict::Write);
    }
    s.end_file();
    let file = s.record("2024-01-01T00:00:00+00:00".to_string()).unwrap();
    assert_eq!(file.size_bytes, MAX_FILE_SIZE as i64);
    assert_eq!(MAX_FILE_SIZE, 104_857_600);
}

#[test]
fn upload_one_byte_over_cap_fails() {
    let mut s = UploadSession::new("alice");
    s.accept_metadata(Some(metadata(5)));
    s.begin_file().unwrap();
    assert_eq!(s.accept_chunk(MAX_FILE_SIZE as usize), ChunkVerdict::Write);
    assert_eq!(s.accept_chunk(1), ChunkVerdict::Abort);
    assert_eq!(s.failure, Some(FileError::PayloadTooLarge));
    assert!(!s.writing);
    assert_eq!(s.accept_chunk(0), ChunkVerdict::Abort);
    s.end_file();
    assert_eq!(s.finish(), Err(FileError::PayloadTooLarge));
}

#[test]
fn recorded_size_ignores_declared_size() {
    let mut s = UploadSession::new("bob");
    s.accept_metadata(Some(metadata(999_999)));
    let path = s.begin_file().unwrap();
    assert_eq!(s.accept_chunk(10), ChunkVerdict::Write);
    assert_eq!(s.accept_chunk(7), ChunkVerdict::Write);
    s.end_file();
    let file = s.finish().unwrap();
    assert_eq!(file.size_bytes, 17);
    assert_eq!(file.user_id, "bob");
    assert_eq!(file.original_name, "photo.jpg");
    assert_eq!(file.mime_type, "image/jpeg");
    assert_eq!(file.storage_path, path);
    let response = FileResponse::from(file.clone());
    assert_eq!(response.id, file.id);
    assert_eq!(response.size_bytes, 17);
}

#[test]
fn metadata_may_follow_the_file() {
    let mut s = UploadSession::new("bob");
    s.begin_file().unwrap();
    s.accept_chunk(3);
    s.end_file();
    s.accept_metadata(Some(metadata(3)));
    assert_eq!(s.record("t".to_string()).unwrap().size_bytes, 3);
}

#[test]
fn missing_metadata_is_invalid() {
    let mut s = UploadSession::new("bob");
    s.begin_file().unwrap();
    s.accept_chunk(3);
    s.end_file();
    assert_eq!(s.record("t".to_string()), Err(FileError::InvalidMetadata));
}

#[test]
fn missing_file_is_invalid() {
    let mut s = UploadSession::new("bob");
    s.accept_metadata(Some(metadata(3)));
    assert_eq!(s.record("t".to_string()), Err(FileError::InvalidMetadata));
}

#[test]
fn unreadable_metadata_fails_upload() {
    let mut s = UploadSession::new("bob");
    s.accept_metadata(None);
    assert_eq!(s.failure, Some(FileError::InvalidMetadata));
    assert_eq!(s.begin_file(), None);
    s.accept_metadata(Some(metadata(1)));
    assert_eq!(s.metadata, None);
}

#[test]
fn storage_failure_fails_upload() {
    let mut s = UploadSession::new("bob");
    s.accept_metadata(Some(metadata(1)));
    s.begin_file().unwrap();
    s.storage_failed();
    assert_eq!(s.accept_chunk(1), ChunkVerdict::Abort);
    assert_eq!(s.record("t".to_string()), Err(FileError::StorageError));
}

#[test]
fn chunk_outside_file_field_is_refused() {
    let mut s = UploadSession::new("bob");
    assert_eq!(s.accept_chunk(1), ChunkVerdict::Abort);
    assert_eq!(s.failure, None);
}

#[test]
fn unfinished_file_field_is_invalid() {
    let mut s = UploadSession::new("bob");
    s.accept_metadata(Some(metadata(1)));
    s.begin_file().unwrap();
    s.accept_chunk(1);
    assert_eq!(s.record("t".to_string()), Err(FileError::InvalidMetadata));
}

#[test]
fn file_error_statuses_and_messages() {
    assert_eq!(FileError::NotFound.status_code(), 404);
    assert_eq!(FileError::PayloadTooLarge.status_code(), 400);
    assert_eq!(FileError::InvalidMetadata.status_code(), 400);
    assert_eq!(FileError::Unauthorized.status_code(), 403);
    assert_eq!(FileError::StorageError.status_code(), 500);
    assert_eq!(FileError::InternalError.status_code(), 500);
    assert_eq!(FileError::DatabaseError("disk I/O".to_string()).status_code(), 500);
    assert_eq!(FileError::DatabaseError("disk I/O".to_string()).message(), "Database error");
    assert_eq!(FileError::PayloadTooLarge.message(), "File too large");
    assert_eq!(FileError::NotFound.message(), "File not found");
}
