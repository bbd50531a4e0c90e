use std::io::Write;

use listdl::{DlError, Downloader};

fn make_zip(entries: &[(&str, &[u8])]) -> Vec<u8> {
    let mut cur = std::io::Cursor::new(Vec::new());
    let mut w = zip::ZipWriter::new(&mut cur);
    let opts = zip::write::FileOptions::default();
    for (name, data) in entries {
        w.start_file(*name, opts).unwrap();
        w.write_all(data).unwrap();
    }
    w.finish().unwrap();
    drop(w);
    cur.into_inner()
}

#[test]
fn digest_of_empty_input() {
    let dl = Downloader::new();
    let d = dl.download_lists(&Vec::new());
    assert_eq!(d, "e3b0c44298fc1c149afbf4c8996fb92427ae41e4649b934ca495991b7852b855");
}

#[test]
fn digest_of_known_bytes() {
    let dl = Downloader::new();
    let d = dl.download_lists(&b"abc".to_vec());
    assert_eq!(d, "ba7816bf8f01cfea414140de5dae2223b00361a396177a9cb410ff61f20015ad");
}

#[test]
fn unzip_two_entries_yields_two_files() {
    let dl = Downloader::new();
    let bytes = make_zip(&[("a.json", b"alpha"), ("b.json", b"beta")]);
    let files = dl.unzip(bytes).unwrap();
    assert_eq!(files.len(), 2);
    assert_eq!(files[0].name, "a.json");
    assert_eq!(files[0].path, "lists/misc/a.json");
    assert_eq!(files[0].data, b"alpha".to_vec());
    assert_eq!(files[1].name, "b.json");
    assert_eq!(files[1].path, "lists/misc/b.json");
    assert_eq!(files[1].data, b"beta".to_vec());
}

#[test]
fn unzip_empty_archive_yields_no_files() {
    let dl = Downloader::new();
    let bytes = make_zip(&[]);
    let files = dl.unzip(bytes).unwrap();
    assert_eq!(files.len(), 0);
}

#[test]
fn unzip_rejects_traversal_entry() {
    let dl = Downloader::new();
    let bytes = make_zip(&[("../../evil.json", b"owned")]);
    assert_eq!(dl.unzip(bytes), Err(DlError::ArchiveError));
}

#[test]
fn unzip_rejects_absolute_entry() {
    let dl = Downloader::new();
    let bytes = make_zip(&[("/etc/passwd", b"root")]);
    assert_eq!(dl.unzip(bytes), Err(DlError::ArchiveError));
}

#[test]
fn unzip_accepts_inner_dots_in_a_name() {
    let dl = Downloader::new();
    let bytes = make_zip(&[("a..b.json", b"dots")]);
    let files = dl.unzip(bytes).unwrap();
    assert_eq!(files.len(), 1);
    assert_eq!(files[0].path, "lists/misc/a..b.json");
    assert_eq!(files[0].data, b"dots".to_vec());
}

#[test]
fn unzip_rejects_dotdot_component() {
    let dl = Downloader::new();
    let bytes = make_zip(&[("a/../b.json", b"x")]);
    assert_eq!(dl.unzip(bytes), Err(DlError::ArchiveError));
}

#[test]
fn unzip_rejects_bare_dotdot() {
    let dl = Downloader::new();
    let bytes = make_zip(&[("..", b"x")]);
    assert_eq!(dl.unzip(bytes), Err(DlError::ArchiveError));
}

#[test]
fn unzip_rejects_garbage_bytes() {
    let dl = Downloader::new();
    assert_eq!(dl.unzip(b"this is no archive".to_vec()), Err(DlError::ArchiveError));
}
