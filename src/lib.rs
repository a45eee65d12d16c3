//! A client for a remote file store whose API exchanges bounded blocks, one
//! request at a time.
//!
//! The library holds the decisions: how a remote path is normalised, how a
//! failed response is classified, how a whole-file write is split into
//! blocks, how a whole-file read is assembled, and the pull-based state
//! machine of the streaming reader. Performing the requests is left to the
//! caller, which hands the outcome of each one back to the library.

pub mod duration;
pub mod error;
pub mod models;
pub mod path;
pub mod read;
pub mod stream;
pub mod wire;
pub mod write;

pub use duration::dur_to_string;
pub use error::{DbfsError, DbfsErrorCode, DbfsErrorResponse};
pub use path::strip_dbfs_prefix;
pub use read::{DownloadCursor, FileReader, ReadBlockRequest};
pub use stream::{LinePull, Pull, ReadStreamState, StreamPhase, STREAM_BLOCK_SIZE};
pub use wire::{DbfsApiVersions, Endpoint, FileStatus, Handle};
pub use write::{plan_write, ChunkedUpload, ClosingUpload, OpenUpload, WritePlan, CHUNK_SIZE};
