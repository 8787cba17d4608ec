//! Audio-directory enumeration and small JSON document persistence, as
//! decision logic over plain values.
//!
//! The caller does the filesystem work: it probes paths, lists directories
//! and reads files, and hands in what it found. Every function here states
//! exactly what it returns for each such input.
//!
//! - `resolve`: the candidate locations of a requested directory and the
//!   choice among them.
//! - `scan`: the audio files of one directory listing.
//! - `summary`: the subdirectories of the audio root and their file counts.
//! - `store`: reading and writing JSON documents in the data directory.
//! - `formats`: the allow-list of extensions and the extension of a name.
//! - `model`, `error`: the values handed in and out.
//! - `text`, `collect`: helpers on character sequences and sequences.
//! - `json`: the trusted boundary to the JSON codec.

pub mod collect;
pub mod error;
pub mod formats;
pub mod json;
pub mod model;
pub mod resolve;
pub mod scan;
pub mod store;
pub mod summary;
pub mod text;

pub use crate::error::ScanError;
pub use crate::model::{AudioDirectory, AudioFile, DirectoryContents};
pub use crate::store::StoreError;
