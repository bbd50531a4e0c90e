use listdl::json::parse_one_list;
use listdl::{DlError, Downloader, Playerarray, SteamId};

fn list_doc(players: &str) -> String {
    format!(
        "{{\"$schema\":\"s\",\"file_info\":{{\"authors\":[],\"title\":\"L\",\"description\":\"d\",\"update_url\":\"u\"}},\"players\":{}}}",
        players
    )
}

#[test]
fn list_missing_players_is_a_decode_error() {
    let text = "{\"$schema\":\"s\",\"file_info\":{\"authors\":[],\"title\":\"L\",\"description\":\"d\",\"update_url\":\"u\"}}";
    assert_eq!(parse_one_list(text), Err(DlError::DecodeError));
}

#[test]
fn list_empty_players_yields_zero_entries() {
    let list = parse_one_list(&list_doc("[]")).unwrap();
    assert_eq!(list.players.len(), 0);
    assert_eq!(list.schema, "s");
    assert_eq!(list.file_info.title, "L");
}

#[test]
fn list_numeric_and_string_identifiers() {
    let text = list_doc(
        "[{\"steamid\":123,\"attributes\":[\"cheater\"]},{\"steamid\":\"765\",\"attributes\":[\"suspicious\",\"cheater\"]}]",
    );
    let list = parse_one_list(&text).unwrap();
    assert_eq!(
        list.players,
        vec![
            Playerarray {
                steamid: SteamId::Num(123),
                attributes: vec!["cheater".to_string()],
            },
            Playerarray {
                steamid: SteamId::Text("765".to_string()),
                attributes: vec!["suspicious".to_string(), "cheater".to_string()],
            },
        ]
    );
}

#[test]
fn list_player_without_identifier_is_a_decode_error() {
    let text = list_doc("[{\"attributes\":[\"cheater\"]}]");
    assert_eq!(parse_one_list(&text), Err(DlError::DecodeError));
}

#[test]
fn list_player_with_null_identifier_is_a_decode_error() {
    let text = list_doc("[{\"steamid\":null,\"attributes\":[]}]");
    assert_eq!(parse_one_list(&text), Err(DlError::DecodeError));
}

#[test]
fn list_player_without_attributes_is_a_decode_error() {
    let text = list_doc("[{\"steamid\":1}]");
    assert_eq!(parse_one_list(&text), Err(DlError::DecodeError));
}

#[test]
fn parse_lists_decodes_every_body() {
    let dl = Downloader::new();
    let bodies = vec![list_doc("[]"), list_doc("[{\"steamid\":7,\"attributes\":[]}]")];
    let lists = dl.parse_lists(&bodies).unwrap();
    assert_eq!(lists.len(), 2);
    assert_eq!(lists[0].players.len(), 0);
    assert_eq!(lists[1].players.len(), 1);
    assert_eq!(lists[1].players[0].steamid, SteamId::Num(7));
}

#[test]
fn parse_lists_fails_on_one_bad_body() {
    let dl = Downloader::new();
    let bodies = vec![list_doc("[]"), "nonsense".to_string()];
    assert_eq!(dl.parse_lists(&bodies), Err(DlError::DecodeError));
}
