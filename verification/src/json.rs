//! Decoding of the two JSON document shapes the pipeline reads: pointer
//! documents and resolved lists.
//!
//! The raw JSON parsing and field lookup go through serde_json behind
//! trusted wrappers; what each wrapper returns is a function of the document
//! text alone and carries a name here. Everything downstream of the
//! wrappers — assembling players, deciding success and failure — is
//! verified code.

use vstd::prelude::*;

use crate::error::DlError;
use crate::types::{
    DownloadList, DownloadListView, FileInfo, List, ListView, PlayerView, Playerarray, SteamId,
    SteamIdView,
};

verus! {

/// The pointer document encoded in `s`, if `s` is valid JSON with a string
/// `$schema` (or `schema`) field and a `file_info` object holding string
/// fields `title`, `description`, `update_url` and a string array
/// `authors`. Depends on `s` alone.
pub uninterp spec fn pointer_doc_of(s: Seq<char>) -> Option<DownloadListView>;

/// The length of the `players` array encoded in `s`: `None` when `s` is
/// not valid JSON, or `players` is missing or not an array. Depends on
/// `s` alone.
pub uninterp spec fn players_len_of(s: Seq<char>) -> Option<nat>;

/// The raw fields of player `i` of the `players` array encoded in `s`:
/// its identifier read as a non-negative integer and as a string (either
/// may be absent), and its `attributes` string array. `None` when the
/// element is missing, has no `steamid`, or its `attributes` are not an
/// array of strings. Depends on `s` and `i` alone.
pub struct PlayerRawView {
    pub num: Option<u64>,
    pub text: Option<Seq<char>>,
    pub attributes: Seq<Seq<char>>,
}

pub uninterp spec fn player_raw_of(s: Seq<char>, i: int) -> Option<PlayerRawView>;

/// Relies on serde_json: `from_str` to `Value`, `Value::get`,
/// `Value::as_str` and `Value::as_array`, reading the pointer-document
/// fields out of the text.
#[verifier::external_body]
pub(crate) fn decode_pointer_raw(s: &str) -> (r: Option<DownloadList>)
    ensures
        r is Some <==> pointer_doc_of(s@) is Some,
        r is Some ==> r.unwrap()@ == pointer_doc_of(s@).unwrap(),
{
    let v: serde_json::Value = serde_json::from_str(s).ok()?;
    let fi = v.get("file_info")?;
    let schema = v.get("$schema").or_else(|| v.get("schema"))?.as_str()?.to_string();
    let authors = fi.get("authors")?.as_array()?.iter().map(
        |a| a.as_str().map(str::to_string),
    ).collect::<Option<Vec<String>>>()?;
    let title = fi.get("title")?.as_str()?.to_string();
    let description = fi.get("description")?.as_str()?.to_string();
    let update_url = fi.get("update_url")?.as_str()?.to_string();
    Some(DownloadList { schema, file_info: FileInfo { authors, title, description, update_url } })
}

/// Relies on serde_json: `from_str` to `Value`, `Value::get` and
/// `Value::as_array`, reading the length of the `players` array.
#[verifier::external_body]
pub(crate) fn decode_players_len(s: &str) -> (r: Option<usize>)
    ensures
        r is Some <==> players_len_of(s@) is Some,
        r matches Some(n) ==> n as nat == players_len_of(s@).unwrap(),
{
    let v: serde_json::Value = serde_json::from_str(s).ok()?;
    Some(v.get("players")?.as_array()?.len())
}

/// Relies on serde_json: `Value::get` on the `players` array, and
/// `Value::as_u64`, `Value::as_str`, `Value::as_array` on the element's
/// fields.
#[verifier::external_body]
pub(crate) fn decode_player_raw(s: &str, i: usize) -> (r: Option<
    (Option<u64>, Option<String>, Vec<String>),
>)
    ensures
        r is Some <==> player_raw_of(s@, i as int) is Some,
        r is Some ==> {
            let p = player_raw_of(s@, i as int).unwrap();
            &&& r.unwrap().0 == p.num
            &&& (r.unwrap().1 is Some <==> p.text is Some)
            &&& (r.unwrap().1 is Some ==> r.unwrap().1.unwrap()@ == p.text.unwrap())
            &&& r.unwrap().2.deep_view() == p.attributes
        },
{
    let v: serde_json::Value = serde_json::from_str(s).ok()?;
    let p = v.get("players")?.as_array()?.get(i)?;
    let attributes = p.get("attributes")?.as_array()?.iter().map(
        |a| a.as_str().map(str::to_string),
    ).collect::<Option<Vec<String>>>()?;
    let sid = p.get("steamid")?;
    Some((sid.as_u64(), sid.as_str().map(str::to_string), attributes))
}

/// The player a raw element decodes to: a numeric identifier when the JSON
/// held a non-negative integer, a textual one when it held a string, and
/// no player at all otherwise.
pub open spec fn player_from_raw(p: PlayerRawView) -> Option<PlayerView> {
    if p.num is Some {
        Some(PlayerView { steamid: SteamIdView::Num(p.num.unwrap()), attributes: p.attributes })
    } else if p.text is Some {
        Some(PlayerView { steamid: SteamIdView::Text(p.text.unwrap()), attributes: p.attributes })
    } else {
        None
    }
}

/// The player at index `i` of the list encoded in `s`, if well-shaped.
pub open spec fn spec_player_at(s: Seq<char>, i: int) -> Option<PlayerView> {
    match player_raw_of(s, i) {
        None => None,
        Some(p) => player_from_raw(p),
    }
}

/// The resolved list encoded in `s`: the head fields a list shares with a
/// pointer document, and every player of its `players` array; `None` when
/// the head, the array, or any player is ill-shaped.
pub open spec fn spec_parse_list(s: Seq<char>) -> Option<ListView> {
    if pointer_doc_of(s) is Some && players_len_of(s) is Some {
        let d = pointer_doc_of(s).unwrap();
        let n = players_len_of(s).unwrap();
        if forall|i: int| 0 <= i < n ==> (#[trigger] spec_player_at(s, i)) is Some {
            Some(
                ListView {
                    schema: d.schema,
                    file_info: d.file_info,
                    players: Seq::new(n, |i: int| spec_player_at(s, i).unwrap()),
                },
            )
        } else {
            None
        }
    } else {
        None
    }
}

/// A resolved list whose `players` array is empty decodes successfully,
/// to zero player entries.
pub proof fn lemma_empty_players_decode(s: Seq<char>)
    requires
        pointer_doc_of(s) is Some,
        players_len_of(s) matches Some(n) && n == 0,
    ensures
        spec_parse_list(s) matches Some(l) && l.players.len() == 0,
{
}

/// Builds the player an element's raw fields stand for, preferring the
/// numeric reading of the identifier as `player_from_raw` does.
fn build_player(raw: (Option<u64>, Option<String>, Vec<String>), Ghost(s): Ghost<Seq<char>>, Ghost(
    i,
): Ghost<int>) -> (r: Option<Playerarray>)
    requires
        player_raw_of(s, i) is Some,
        ({
            let p = player_raw_of(s, i).unwrap();
            &&& raw.0 == p.num
            &&& (raw.1 is Some <==> p.text is Some)
            &&& (raw.1 is Some ==> raw.1.unwrap()@ == p.text.unwrap())
            &&& raw.2.deep_view() == p.attributes
        }),
    ensures
        r is Some <==> spec_player_at(s, i) is Some,
        r is Some ==> r.unwrap()@ == spec_player_at(s, i).unwrap(),
{
    let (num, text, attributes) = raw;
    match num {
        Some(n) => Some(Playerarray { steamid: SteamId::Num(n), attributes }),
        None => match text {
            Some(t) => Some(Playerarray { steamid: SteamId::Text(t), attributes }),
            None => None,
        },
    }
}

/// Decodes one resolved list out of the document text.
///
/// Returns the list exactly when the text is well-shaped, and
/// `DecodeError` otherwise: missing or ill-typed head fields, a missing
/// `players` array, or any ill-shaped player element fail the whole
/// decode.
pub fn parse_one_list(s: &str) -> (r: Result<List, DlError>)
    ensures
        r is Ok <==> spec_parse_list(s@) is Some,
        r is Ok ==> r.unwrap()@ == spec_parse_list(s@).unwrap(),
        r is Err ==> r == Err::<List, DlError>(DlError::DecodeError),
{
    let doc = match decode_pointer_raw(s) {
        Some(d) => d,
        None => {
            return Err(DlError::DecodeError);
        },
    };
    let count = match decode_players_len(s) {
        Some(n) => n,
        None => {
            return Err(DlError::DecodeError);
        },
    };
    let mut players: Vec<Playerarray> = Vec::new();
    let mut i: usize = 0;
    while i < count
        invariant
            pointer_doc_of(s@) is Some,
            doc@ == pointer_doc_of(s@).unwrap(),
            players_len_of(s@) is Some,
            count as nat == players_len_of(s@).unwrap(),
            i <= count,
            players@.len() == i as nat,
            forall|j: int|
                0 <= j < i ==> (#[trigger] spec_player_at(s@, j)) is Some && players@[j]@
                    == spec_player_at(s@, j).unwrap(),
        decreases count - i,
    {
        let raw = match decode_player_raw(s, i) {
            Some(p) => p,
            None => {
                proof {
                    assert((#[trigger] spec_player_at(s@, i as int)) is None);
                }
                return Err(DlError::DecodeError);
            },
        };
        let player = match build_player(raw, Ghost(s@), Ghost(i as int)) {
            Some(p) => p,
            None => {
                proof {
                    assert((#[trigger] spec_player_at(s@, i as int)) is None);
                }
                return Err(DlError::DecodeError);
            },
        };
        players.push(player);
        i = i + 1;
    }
    let result = List { schema: doc.schema, file_info: doc.file_info, players };
    proof {
        let sv = spec_parse_list(s@);
        assert(sv is Some);
        assert(result@.players =~= sv.unwrap().players);
        assert(result@ == sv.unwrap());
    }
    Ok(result)
}

} // verus!
