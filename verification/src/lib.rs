//! Verified core of a reputation-list downloader.
//!
//! The library plans and checks every step of the pipeline: hashing the
//! fetched archive, enumerating and safety-checking its entries, deciding
//! which pointer documents to resolve, and decoding the resolved lists.
//! All file and network I/O stays outside, in the surrounding binary.

pub mod archive;
pub mod digest;
pub mod download;
pub mod error;
pub mod json;
pub mod text;
pub mod types;

pub use archive::ExtractedFile;
pub use download::{Downloader, ResolveAction};
pub use error::{DlError, FsErrorKind};
pub use types::{DownloadList, FileInfo, List, Playerarray, SteamId};
