//! Error kinds of the download pipeline.

use vstd::prelude::*;

verus! {

/// Why a file operation failed. The writer must distinguish at least a
/// denied permission, a missing path, and a write that ended early (a full
/// disk or a truncated stream); anything else is reported bare.
#[derive(Clone, Copy, Debug, PartialEq, Eq, Structural)]
pub enum FsErrorKind {
    /// The path may not be created or written by this process.
    PermissionDenied,
    /// A component of the path does not exist.
    NotFound,
    /// The write ended before all bytes were taken.
    UnexpectedEof,
    /// Any other file failure.
    Other,
}

/// What went wrong in one step of the pipeline.
///
/// Every operation reports exactly one of these kinds; the caller aborts the
/// run on the first error it sees.
#[derive(Clone, Copy, Debug, PartialEq, Eq, Structural)]
pub enum DlError {
    /// A network request failed or returned a non-success status.
    NetworkError,
    /// A file could not be created, written, or read.
    FilesystemError(FsErrorKind),
    /// The archive is corrupt, or an entry's path would escape the
    /// extraction directory.
    ArchiveError,
    /// A document is not valid JSON or misses a required field.
    DecodeError,
}

/// The diagnostic label of an error, one per kind.
pub open spec fn spec_label(e: DlError) -> Seq<char> {
    match e {
        DlError::NetworkError => "network error"@,
        DlError::FilesystemError(k) => match k {
            FsErrorKind::PermissionDenied => "filesystem error: permission denied"@,
            FsErrorKind::NotFound => "filesystem error: not found"@,
            FsErrorKind::UnexpectedEof => "filesystem error: unexpected end of file"@,
            FsErrorKind::Other => "filesystem error"@,
        },
        DlError::ArchiveError => "archive error"@,
        DlError::DecodeError => "decode error"@,
    }
}

impl DlError {
    /// A short diagnostic label for display by the caller.
    pub fn label(&self) -> (r: &'static str)
        ensures
            r@ == spec_label(*self),
    {
        match self {
            DlError::NetworkError => "network error",
            DlError::FilesystemError(FsErrorKind::PermissionDenied) => {
                "filesystem error: permission denied"
            },
            DlError::FilesystemError(FsErrorKind::NotFound) => "filesystem error: not found",
            DlError::FilesystemError(FsErrorKind::UnexpectedEof) => {
                "filesystem error: unexpected end of file"
            },
            DlError::FilesystemError(FsErrorKind::Other) => "filesystem error",
            DlError::ArchiveError => "archive error",
            DlError::DecodeError => "decode error",
        }
    }
}

} // verus!
