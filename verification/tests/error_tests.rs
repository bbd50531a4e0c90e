use listdl::{DlError, FsErrorKind};

#[test]
fn labels_distinguish_every_kind() {
    assert_eq!(DlError::NetworkError.label(), "network error");
    assert_eq!(DlError::ArchiveError.label(), "archive error");
    assert_eq!(DlError::DecodeError.label(), "decode error");
    assert_eq!(
        DlError::FilesystemError(FsErrorKind::PermissionDenied).label(),
        "filesystem error: permission denied"
    );
    assert_eq!(
        DlError::FilesystemError(FsErrorKind::NotFound).label(),
        "filesystem error: not found"
    );
    assert_eq!(
        DlError::FilesystemError(FsErrorKind::UnexpectedEof).label(),
        "filesystem error: unexpected end of file"
    );
    assert_eq!(DlError::FilesystemError(FsErrorKind::Other).label(), "filesystem error");
}

#[test]
fn filesystem_kinds_are_distinct_values() {
    assert_ne!(
        DlError::FilesystemError(FsErrorKind::PermissionDenied),
        DlError::FilesystemError(FsErrorKind::NotFound)
    );
    assert_ne!(DlError::FilesystemError(FsErrorKind::Other), DlError::NetworkError);
}
