//! Trusted boundary around the zip crate: opening an in-memory archive and
//! reading entry names and contents. The extraction logic itself — walking
//! the entries, guarding every name, fixing destination paths — is verified
//! code in [`crate::download`].

use vstd::prelude::*;

use crate::error::DlError;

verus! {

#[verifier::external_type_specification]
#[verifier::external_body]
#[verifier::reject_recursive_types(R)]
pub struct ExZipArchive<R>(zip::ZipArchive<R>);

#[verifier::external_type_specification]
#[verifier::external_body]
#[verifier::reject_recursive_types(T)]
pub struct ExCursor<T>(std::io::Cursor<T>);

/// What an opened archive holds: the name and the decompressed contents of
/// each entry, in archive order.
pub uninterp spec fn archive_view(a: zip::ZipArchive<std::io::Cursor<Vec<u8>>>) -> Seq<
    (Seq<char>, Seq<u8>),
>;

/// Whether entry `i` of an opened archive can be read through to its end:
/// its local header parses and its contents decompress. A function of the
/// archive's bytes and the index alone.
pub uninterp spec fn archive_entry_readable(
    a: zip::ZipArchive<std::io::Cursor<Vec<u8>>>,
    i: int,
) -> bool;

/// Whether a byte sequence is a well-formed archive, that is, whether
/// opening it succeeds. Depends on the bytes alone.
pub uninterp spec fn zip_wellformed(b: Seq<u8>) -> bool;

/// The entries encoded in a byte sequence: the name and the decompressed
/// contents of each, in archive order. Depends on the bytes alone.
pub uninterp spec fn zip_entries(b: Seq<u8>) -> Seq<(Seq<char>, Seq<u8>)>;

/// Whether entry `i` of the archive encoded in a byte sequence can be read
/// through to its end. Depends on the bytes and the index alone.
pub uninterp spec fn zip_entry_readable(b: Seq<u8>, i: int) -> bool;

/// Relies on zip's `ZipArchive::new` over an in-memory cursor: parsing the
/// central directory of the given bytes, which succeeds exactly on
/// well-formed archives and yields their entries. Which entries then read
/// through is likewise fixed by the bytes.
#[verifier::external_body]
pub(crate) fn zip_open(bytes: Vec<u8>) -> (r: Result<
    zip::ZipArchive<std::io::Cursor<Vec<u8>>>,
    DlError,
>)
    ensures
        r is Ok <==> zip_wellformed(bytes@),
        r matches Ok(a) ==> archive_view(a) == zip_entries(bytes@) && (forall|i: int|
            #[trigger] archive_entry_readable(a, i) == zip_entry_readable(bytes@, i)),
{
    match zip::ZipArchive::new(std::io::Cursor::new(bytes)) {
        Ok(a) => Ok(a),
        Err(_) => Err(DlError::ArchiveError),
    }
}

/// Relies on zip's `ZipArchive::len`: the number of entries.
#[verifier::external_body]
pub(crate) fn zip_count(a: &zip::ZipArchive<std::io::Cursor<Vec<u8>>>) -> (r: usize)
    ensures
        r as nat == archive_view(*a).len(),
{
    a.len()
}

/// Relies on zip's `ZipArchive::by_index_decrypt` (with an empty password,
/// so that a crafted encryption field answers with an error instead of a
/// panic) and `ZipFile::name`: the stored name of entry `i`, exactly as
/// the archive carries it. Succeeds whenever the entry reads through.
/// Reading moves only the underlying cursor; the entries and their
/// readability do not change.
#[verifier::external_body]
pub(crate) fn zip_entry_name(a: &mut zip::ZipArchive<std::io::Cursor<Vec<u8>>>, i: usize) -> (r:
    Result<String, DlError>)
    requires
        (i as nat) < archive_view(*old(a)).len(),
    ensures
        archive_view(*final(a)) == archive_view(*old(a)),
        forall|j: int| #[trigger]
            archive_entry_readable(*final(a), j) == archive_entry_readable(*old(a), j),
        r matches Ok(n) ==> n@ == archive_view(*old(a))[i as int].0,
        archive_entry_readable(*old(a), i as int) ==> r is Ok,
{
    match a.by_index_decrypt(i, b"") {
        Ok(Ok(f)) => Ok(f.name().to_string()),
        _ => Err(DlError::ArchiveError),
    }
}

/// Relies on zip's `ZipArchive::by_index_decrypt` (empty password, as in
/// `zip_entry_name`) and std's `Read::read_to_end`: the decompressed
/// contents of entry `i`. Succeeds exactly when the entry reads through.
/// Reading moves only the underlying cursor; the entries and their
/// readability do not change.
#[verifier::external_body]
pub(crate) fn zip_entry_data(a: &mut zip::ZipArchive<std::io::Cursor<Vec<u8>>>, i: usize) -> (r:
    Result<Vec<u8>, DlError>)
    requires
        (i as nat) < archive_view(*old(a)).len(),
    ensures
        archive_view(*final(a)) == archive_view(*old(a)),
        forall|j: int| #[trigger]
            archive_entry_readable(*final(a), j) == archive_entry_readable(*old(a), j),
        r matches Ok(d) ==> d@ == archive_view(*old(a))[i as int].1,
        r is Ok <==> archive_entry_readable(*old(a), i as int),
{
    match a.by_index_decrypt(i, b"") {
        Ok(Ok(mut f)) => {
            let mut data: Vec<u8> = Vec::new();
            match std::io::Read::read_to_end(&mut f, &mut data) {
                Ok(_) => Ok(data),
                Err(_) => Err(DlError::ArchiveError),
            }
        },
        _ => Err(DlError::ArchiveError),
    }
}

/// One extracted archive entry, ready to be written to disk: its stored
/// name, the destination path derived from it, and its contents.
#[derive(Clone, Debug, PartialEq, Eq)]
pub struct ExtractedFile {
    pub name: String,
    pub path: String,
    pub data: Vec<u8>,
}

} // verus!
