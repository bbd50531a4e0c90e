//! The pipeline's decision core: digesting the fetched archive, planning
//! extraction, and resolving pointer documents into lists.
//!
//! Fetching, writing and deleting files stay in the surrounding binary,
//! which hands this type plain bytes and strings and acts on what it
//! returns.

use vstd::prelude::*;

use crate::archive::{
    archive_entry_readable, zip_count, zip_entries, zip_entry_data, zip_entry_name,
    zip_entry_readable, zip_open, zip_wellformed, ExtractedFile,
};
use crate::digest::{sha256_hex, sha256_hex_of};
use crate::error::DlError;
use crate::json::{parse_one_list, pointer_doc_of, spec_parse_list};
use crate::text::{
    derive_list_path, derive_misc_path, is_excluded, is_safe_entry_name, spec_excluded,
    spec_list_path, spec_misc_path, spec_safe_entry_name,
};
use crate::types::List;

verus! {

/// What is to be done for one pointer document.
#[derive(Clone, Debug, PartialEq, Eq)]
pub enum ResolveAction {
    /// The derived filename falls under the exclusion rule: no fetch, no
    /// write.
    Skip,
    /// Fetch `url` and write the response body at `dest`.
    Fetch { url: String, dest: String },
}

/// Plans and checks each step of the download pipeline.
pub struct Downloader {}

impl Downloader {
    /// A fresh pipeline.
    pub fn new() -> Downloader {
        Downloader {}
    }

    /// The digest of the fetched archive bytes, for display beside the
    /// published reference sum. Informational only: it decides nothing.
    pub fn download_lists(&self, archive: &Vec<u8>) -> (r: String)
        ensures
            r@ == sha256_hex_of(archive@),
            r@.len() == 64,
    {
        sha256_hex(archive)
    }

    /// Plans the extraction of the archive: enumerates its entries, guards
    /// every name against directory traversal, and pairs each entry's
    /// contents with its destination path under `lists/misc/`.
    ///
    /// Succeeds exactly when the archive opens, every entry reads through,
    /// and every name is safe — one planned file per entry then comes
    /// back. A malformed archive, an unreadable entry, and an unsafe name
    /// fail with `ArchiveError`, and nothing else does.
    pub fn unzip(&self, archive: Vec<u8>) -> (r: Result<Vec<ExtractedFile>, DlError>)
        ensures
            !zip_wellformed(archive@) ==> r == Err::<Vec<ExtractedFile>, DlError>(
                DlError::ArchiveError,
            ),
            r is Err ==> r == Err::<Vec<ExtractedFile>, DlError>(DlError::ArchiveError),
            r matches Ok(files) ==> {
                &&& zip_wellformed(archive@)
                &&& files@.len() == zip_entries(archive@).len()
                &&& forall|i: int|
                    0 <= i < files@.len() ==> {
                        let e = #[trigger] zip_entries(archive@)[i];
                        &&& spec_safe_entry_name(e.0)
                        &&& files@[i].name@ == e.0
                        &&& files@[i].path@ == spec_misc_path(e.0)
                        &&& files@[i].data@ == e.1
                    }
            },
            (zip_wellformed(archive@) && (exists|i: int|
                0 <= i < zip_entries(archive@).len() && !spec_safe_entry_name(
                    (#[trigger] zip_entries(archive@)[i]).0,
                ))) ==> r == Err::<Vec<ExtractedFile>, DlError>(DlError::ArchiveError),
            (zip_wellformed(archive@) && (forall|i: int|
                0 <= i < zip_entries(archive@).len() ==> spec_safe_entry_name(
                    (#[trigger] zip_entries(archive@)[i]).0,
                ) && zip_entry_readable(archive@, i))) ==> r is Ok,
            r is Err ==> !zip_wellformed(archive@) || (exists|i: int|
                0 <= i < zip_entries(archive@).len() && (!spec_safe_entry_name(
                    (#[trigger] zip_entries(archive@)[i]).0,
                ) || !zip_entry_readable(archive@, i))),
    {
        let ghost b = archive@;
        let mut ar = match zip_open(archive) {
            Ok(a) => a,
            Err(_) => {
                return Err(DlError::ArchiveError);
            },
        };
        let count = zip_count(&ar);
        let mut files: Vec<ExtractedFile> = Vec::new();
        let mut i: usize = 0;
        while i < count
            invariant
                b == archive@,
                zip_wellformed(b),
                archive_matches(ar, b),
                forall|j: int| #[trigger]
                    archive_entry_readable(ar, j) == zip_entry_readable(b, j),
                count as nat == zip_entries(b).len(),
                i <= count,
                files@.len() == i as nat,
                forall|j: int|
                    0 <= j < i ==> {
                        let e = #[trigger] zip_entries(b)[j];
                        &&& spec_safe_entry_name(e.0)
                        &&& files@[j].name@ == e.0
                        &&& files@[j].path@ == spec_misc_path(e.0)
                        &&& files@[j].data@ == e.1
                    },
            decreases count - i,
        {
            let name = match zip_entry_name(&mut ar, i) {
                Ok(n) => n,
                Err(_) => {
                    proof {
                        assert(!zip_entry_readable(b, i as int));
                        assert(b == archive@);
                        lemma_entry_flaw(archive@, i as int);
                    }
                    return Err(DlError::ArchiveError);
                },
            };
            if !is_safe_entry_name(name.as_str()) {
                proof {
                    assert(b == archive@);
                    lemma_entry_flaw(archive@, i as int);
                }
                return Err(DlError::ArchiveError);
            }
            let data = match zip_entry_data(&mut ar, i) {
                Ok(d) => d,
                Err(_) => {
                    proof {
                        assert(!zip_entry_readable(b, i as int));
                        assert(b == archive@);
                        lemma_entry_flaw(archive@, i as int);
                    }
                    return Err(DlError::ArchiveError);
                },
            };
            let path = derive_misc_path(name.as_str());
            files.push(ExtractedFile { name, path, data });
            i = i + 1;
        }
        Ok(files)
    }

    /// Decides what to do for one extracted pointer document.
    ///
    /// A text that does not decode as a pointer document fails with
    /// `DecodeError`, and nothing else does. Otherwise the destination
    /// filename `lists/<title>.json` is derived from the document's title:
    /// when it falls under the exclusion rule the document is skipped,
    /// else its update URL is to be fetched and written there.
    pub fn resolve_pointer(&self, text: &str) -> (r: Result<ResolveAction, DlError>)
        ensures
            r is Err <==> pointer_doc_of(text@) is None,
            r is Err ==> r == Err::<ResolveAction, DlError>(DlError::DecodeError),
            pointer_doc_of(text@) matches Some(d) ==> {
                if spec_excluded(spec_list_path(d.file_info.title)) {
                    r == Ok::<ResolveAction, DlError>(ResolveAction::Skip)
                } else {
                    r matches Ok(a) && a matches ResolveAction::Fetch { url, dest } && url@
                        == d.file_info.update_url && dest@ == spec_list_path(d.file_info.title)
                }
            },
    {
        let doc = match crate::json::decode_pointer_raw(text) {
            Some(d) => d,
            None => {
                return Err(DlError::DecodeError);
            },
        };
        let dest = derive_list_path(doc.file_info.title.as_str());
        if is_excluded(dest.as_str()) {
            Ok(ResolveAction::Skip)
        } else {
            Ok(ResolveAction::Fetch { url: doc.file_info.update_url, dest })
        }
    }

    /// Decodes the fetched list bodies, in order.
    ///
    /// Succeeds exactly when every body decodes as a resolved list, and
    /// then returns one list per body; the first ill-shaped body fails the
    /// whole batch with `DecodeError`.
    pub fn parse_lists(&self, bodies: &Vec<String>) -> (r: Result<Vec<List>, DlError>)
        ensures
            r is Ok <==> (forall|i: int|
                0 <= i < bodies@.len() ==> spec_parse_list((#[trigger] bodies@[i])@) is Some),
            r matches Ok(ls) ==> ls@.len() == bodies@.len() && (forall|i: int|
                0 <= i < bodies@.len() ==> ls@[i]@ == spec_parse_list(
                    (#[trigger] bodies@[i])@,
                ).unwrap()),
            r is Err ==> r == Err::<Vec<List>, DlError>(DlError::DecodeError),
    {
        let mut out: Vec<List> = Vec::new();
        let mut i: usize = 0;
        while i < bodies.len()
            invariant
                i <= bodies@.len(),
                out@.len() == i as nat,
                forall|j: int|
                    0 <= j < i ==> spec_parse_list((#[trigger] bodies@[j])@) is Some && out@[j]@
                        == spec_parse_list(bodies@[j]@).unwrap(),
            decreases bodies@.len() - i,
        {
            let one = match parse_one_list(bodies[i].as_str()) {
                Ok(l) => l,
                Err(_) => {
                    return Err(DlError::DecodeError);
                },
            };
            out.push(one);
            i = i + 1;
        }
        Ok(out)
    }
}

/// One flawed entry — unsafe name or unreadable — refutes extraction's
/// success condition and witnesses its failure condition.
proof fn lemma_entry_flaw(b: Seq<u8>, i: int)
    requires
        0 <= i < zip_entries(b).len(),
        !spec_safe_entry_name(zip_entries(b)[i].0) || !zip_entry_readable(b, i),
    ensures
        !(forall|j: int|
            0 <= j < zip_entries(b).len() ==> spec_safe_entry_name(
                (#[trigger] zip_entries(b)[j]).0,
            ) && zip_entry_readable(b, j)),
        exists|j: int|
            0 <= j < zip_entries(b).len() && (!spec_safe_entry_name(
                (#[trigger] zip_entries(b)[j]).0,
            ) || !zip_entry_readable(b, j)),
{
    assert(0 <= i < zip_entries(b).len() && (!spec_safe_entry_name(
        (#[trigger] zip_entries(b)[i]).0,
    ) || !zip_entry_readable(b, i)));
}

/// The opened archive holds exactly the entries encoded in `b`.
pub open spec fn archive_matches(
    ar: zip::ZipArchive<std::io::Cursor<Vec<u8>>>,
    b: Seq<u8>,
) -> bool {
    crate::archive::archive_view(ar) == zip_entries(b)
}

} // verus!
