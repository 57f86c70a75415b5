//! The canonical records: every field is always populated, absence having
//! been resolved to a default when the record was made.

use vstd::prelude::*;

verus! {

/// One entry of a playlist.
#[derive(Debug, Clone, PartialEq, Eq)]
pub struct PlaylistItem {
    pub title: String,
    /// The watch address of the video; empty where the video is not known.
    pub link: String,
    pub published_at: String,
    pub position_in_playlist: u32,
    pub description: String,
}

/// What a `PlaylistItem` holds.
pub struct PlaylistItemView {
    pub title: Seq<char>,
    pub link: Seq<char>,
    pub published_at: Seq<char>,
    pub position_in_playlist: u32,
    pub description: Seq<char>,
}

impl View for PlaylistItem {
    type V = PlaylistItemView;

    open spec fn view(&self) -> PlaylistItemView {
        PlaylistItemView {
            title: self.title@,
            link: self.link@,
            published_at: self.published_at@,
            position_in_playlist: self.position_in_playlist,
            description: self.description@,
        }
    }
}

impl PlaylistItemView {
    /// The entry in which every text is empty and the position is 0.
    pub open spec fn blank() -> PlaylistItemView {
        PlaylistItemView {
            title: Seq::empty(),
            link: Seq::empty(),
            published_at: Seq::empty(),
            position_in_playlist: 0,
            description: Seq::empty(),
        }
    }
}

impl PlaylistItem {
    /// An entry in which every text is empty and the position is 0.
    pub fn new() -> (item: PlaylistItem)
        ensures
            item@ == PlaylistItemView::blank(),
    {
        PlaylistItem {
            title: String::new(),
            link: String::new(),
            published_at: String::new(),
            position_in_playlist: 0u32,
            description: String::new(),
        }
    }
}

/// A playlist with its entries.
#[derive(Debug, Clone, PartialEq, Eq)]
pub struct Playlist {
    pub title: String,
    pub description: String,
    pub channel_title: String,
    /// The tags, flattened into one string.
    pub tags: String,
    pub published_at: String,
    pub id: String,
    pub status: String,
    pub items: Vec<PlaylistItem>,
}

/// What a `Playlist` holds.
pub struct PlaylistView {
    pub title: Seq<char>,
    pub description: Seq<char>,
    pub channel_title: Seq<char>,
    pub tags: Seq<char>,
    pub published_at: Seq<char>,
    pub id: Seq<char>,
    pub status: Seq<char>,
    pub items: Seq<PlaylistItemView>,
}

/// What each entry of a sequence of entries holds.
pub open spec fn item_views(items: Seq<PlaylistItem>) -> Seq<PlaylistItemView> {
    items.map_values(|item: PlaylistItem| item@)
}

impl View for Playlist {
    type V = PlaylistView;

    open spec fn view(&self) -> PlaylistView {
        PlaylistView {
            title: self.title@,
            description: self.description@,
            channel_title: self.channel_title@,
            tags: self.tags@,
            published_at: self.published_at@,
            id: self.id@,
            status: self.status@,
            items: item_views(self.items@),
        }
    }
}

impl PlaylistView {
    /// The playlist in which every text is empty and that has no entries.
    pub open spec fn blank() -> PlaylistView {
        PlaylistView {
            title: Seq::empty(),
            description: Seq::empty(),
            channel_title: Seq::empty(),
            tags: Seq::empty(),
            published_at: Seq::empty(),
            id: Seq::empty(),
            status: Seq::empty(),
            items: Seq::empty(),
        }
    }
}

impl Playlist {
    /// A playlist in which every text is empty and that has no entries.
    pub fn new() -> (playlist: Playlist)
        ensures
            playlist@ == PlaylistView::blank(),
    {
        let playlist = Playlist {
            title: String::new(),
            description: String::new(),
            channel_title: String::new(),
            tags: String::new(),
            published_at: String::new(),
            id: String::new(),
            status: String::new(),
            items: Vec::new(),
        };
        assert(item_views(playlist.items@) == Seq::<PlaylistItemView>::empty());
        playlist
    }
}

/// One entry found in a saved playlist page.
#[derive(Debug, Clone, PartialEq, Eq)]
pub struct SimplePlaylistItem {
    pub title: String,
    pub channel_name: String,
    pub link: String,
    /// The video identifier taken from `link`.
    pub id: String,
}

/// What a `SimplePlaylistItem` holds.
pub struct SimplePlaylistItemView {
    pub title: Seq<char>,
    pub channel_name: Seq<char>,
    pub link: Seq<char>,
    pub id: Seq<char>,
}

impl View for SimplePlaylistItem {
    type V = SimplePlaylistItemView;

    open spec fn view(&self) -> SimplePlaylistItemView {
        SimplePlaylistItemView {
            title: self.title@,
            channel_name: self.channel_name@,
            link: self.link@,
            id: self.id@,
        }
    }
}

} // verus!
