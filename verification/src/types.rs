//! The document shapes of the pipeline: pointer documents and resolved
//! reputation lists, with their mathematical views.

use vstd::prelude::*;

verus! {

/// Metadata common to pointer documents and resolved lists.
#[derive(Clone, Debug, PartialEq, Eq)]
pub struct FileInfo {
    pub authors: Vec<String>,
    pub title: String,
    pub description: String,
    pub update_url: String,
}

/// Mathematical view of [`FileInfo`].
pub struct FileInfoView {
    pub authors: Seq<Seq<char>>,
    pub title: Seq<char>,
    pub description: Seq<char>,
    pub update_url: Seq<char>,
}

impl View for FileInfo {
    type V = FileInfoView;

    open spec fn view(&self) -> FileInfoView {
        FileInfoView {
            authors: self.authors.deep_view(),
            title: self.title@,
            description: self.description@,
            update_url: self.update_url@,
        }
    }
}

/// A pointer document: a small record naming the remote URL where the real
/// list can be fetched.
#[derive(Clone, Debug, PartialEq, Eq)]
pub struct DownloadList {
    pub schema: String,
    pub file_info: FileInfo,
}

/// Mathematical view of [`DownloadList`].
pub struct DownloadListView {
    pub schema: Seq<char>,
    pub file_info: FileInfoView,
}

impl View for DownloadList {
    type V = DownloadListView;

    open spec fn view(&self) -> DownloadListView {
        DownloadListView { schema: self.schema@, file_info: self.file_info@ }
    }
}

/// A player identity as the upstream lists carry it: some lists store the
/// identifier as a JSON number, others as a string.
#[derive(Clone, Debug, PartialEq, Eq)]
pub enum SteamId {
    /// The identifier was a non-negative JSON integer.
    Num(u64),
    /// The identifier was a JSON string.
    Text(String),
}

/// Mathematical view of [`SteamId`].
pub enum SteamIdView {
    Num(u64),
    Text(Seq<char>),
}

impl View for SteamId {
    type V = SteamIdView;

    open spec fn view(&self) -> SteamIdView {
        match self {
            SteamId::Num(n) => SteamIdView::Num(*n),
            SteamId::Text(s) => SteamIdView::Text(s@),
        }
    }
}

/// One flagged player of a resolved list: an identity and its tags.
#[derive(Clone, Debug, PartialEq, Eq)]
pub struct Playerarray {
    pub steamid: SteamId,
    pub attributes: Vec<String>,
}

/// Mathematical view of [`Playerarray`].
pub struct PlayerView {
    pub steamid: SteamIdView,
    pub attributes: Seq<Seq<char>>,
}

impl View for Playerarray {
    type V = PlayerView;

    open spec fn view(&self) -> PlayerView {
        PlayerView { steamid: self.steamid@, attributes: self.attributes.deep_view() }
    }
}

/// A resolved reputation list: the final document fetched through a pointer.
#[derive(Clone, Debug, PartialEq, Eq)]
pub struct List {
    pub schema: String,
    pub file_info: FileInfo,
    pub players: Vec<Playerarray>,
}

/// Mathematical view of [`List`].
pub struct ListView {
    pub schema: Seq<char>,
    pub file_info: FileInfoView,
    pub players: Seq<PlayerView>,
}

impl View for List {
    type V = ListView;

    open spec fn view(&self) -> ListView {
        ListView {
            schema: self.schema@,
            file_info: self.file_info@,
            players: Seq::new(self.players@.len(), |i: int| self.players@[i]@),
        }
    }
}

} // verus!
