use listdl::{DlError, Downloader, ResolveAction};

fn pointer_doc(title: &str, url: &str) -> String {
    format!(
        "{{\"$schema\":\"s\",\"file_info\":{{\"authors\":[\"a\"],\"title\":\"{}\",\"description\":\"d\",\"update_url\":\"{}\"}}}}",
        title, url
    )
}

#[test]
fn resolve_valid_pointer_plans_a_fetch() {
    let dl = Downloader::new();
    let text = pointer_doc("ListA", "http://x/listA.json");
    let action = dl.resolve_pointer(&text).unwrap();
    assert_eq!(
        action,
        ResolveAction::Fetch {
            url: "http://x/listA.json".to_string(),
            dest: "lists/ListA.json".to_string(),
        }
    );
}

#[test]
fn resolve_skips_excluded_title() {
    let dl = Downloader::new();
    let text = pointer_doc("MoebList", "http://x/moeb.json");
    assert_eq!(dl.resolve_pointer(&text), Ok(ResolveAction::Skip));
}

#[test]
fn resolve_skips_fragment_inside_title() {
    let dl = Downloader::new();
    let text = pointer_doc("AMoebB", "http://x/amb.json");
    assert_eq!(dl.resolve_pointer(&text), Ok(ResolveAction::Skip));
}

#[test]
fn resolve_does_not_skip_near_miss() {
    let dl = Downloader::new();
    let text = pointer_doc("Moe", "http://x/moe.json");
    let action = dl.resolve_pointer(&text).unwrap();
    assert_eq!(
        action,
        ResolveAction::Fetch {
            url: "http://x/moe.json".to_string(),
            dest: "lists/Moe.json".to_string(),
        }
    );
}

#[test]
fn resolve_rejects_invalid_json() {
    let dl = Downloader::new();
    assert_eq!(dl.resolve_pointer("{"), Err(DlError::DecodeError));
}

#[test]
fn resolve_rejects_missing_update_url() {
    let dl = Downloader::new();
    let text = "{\"$schema\":\"s\",\"file_info\":{\"authors\":[],\"title\":\"T\",\"description\":\"d\"}}";
    assert_eq!(dl.resolve_pointer(text), Err(DlError::DecodeError));
}

#[test]
fn resolve_accepts_plain_schema_key() {
    let dl = Downloader::new();
    let text = "{\"schema\":\"s\",\"file_info\":{\"authors\":[],\"title\":\"T\",\"description\":\"d\",\"update_url\":\"u\"}}";
    let action = dl.resolve_pointer(text).unwrap();
    assert_eq!(
        action,
        ResolveAction::Fetch { url: "u".to_string(), dest: "lists/T.json".to_string() }
    );
}
