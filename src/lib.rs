//! A small self-hosted file store: accounts with signed session tokens, owner-scoped
//! file records with paginated listing, streamed uploads under a size cap, and a
//! throttled snapshot of machine statistics.
//!
//! The decisions of every request live here, with their contracts. The HTTP layer,
//! the database and the disk are driven by the caller, which feeds the outcome of
//! each outside step back into the functions of this crate.

pub mod auth;
pub mod bindings;
pub mod download;
pub mod files;
pub mod listing;
pub mod ownership;
pub mod upload;
pub mod stats;
pub mod user;

pub use download::{content_disposition, sanitize_filename, MAX_FILENAME_CHARS};
pub use files::{response_of, File, FileError, FileMetadata, FileResponse};
pub use upload::{
    blob_path, storage_path, Blob, ChunkVerdict, UploadSession, MAX_FILE_SIZE,
};
pub use stats::{
    disk_usage, network_totals, DeviceReadings, StatsCache, StatsConfig, REFRESH_PERIOD_MS,
};
pub use user::{
    hash_password, new_user, validate_credentials, verify_password, CreateUserRequest, User,
    UserError, UserResponse, MAX_USERNAME_CHARS, MIN_PASSWORD_CHARS, MIN_USERNAME_CHARS,
};
pub use auth::{
    bearer_token, check_login, derive_seed, AuthBody, AuthError, Claims, Keys, LoginRequest,
    SEED_LEN, TOKEN_LIFETIME_SECS,
};
pub use listing::{
    clamp_page, clamp_page_size, count_files_sql, like_pattern, list_files_sql, page_offset, total_pages, FileListResponse,
    FileQuery, SortDirection, SortKey, DEFAULT_PAGE_SIZE, MAX_PAGE_SIZE,
};
pub use ownership::{require_owned, Deletion};
