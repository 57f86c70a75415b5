//! The rules of a whole export: which playlists have their entries fetched,
//! how a playlist and its entries become one record, and where the output
//! goes when no file is named.

use crate::normalize::{item_records, parse_items, parse_playlist, playlist_record};
use crate::paging::{ListQuery, ListQueryView};
use crate::records::{Playlist, PlaylistView};
use crate::remote::{RemotePlaylist, RemotePlaylistItem};
use vstd::prelude::*;

verus! {

/// The request for the entries of a playlist. A playlist without an
/// identifier has none: it is left out of the export.
pub fn items_query(playlist: &RemotePlaylist) -> (query: Option<ListQuery>)
    ensures
        match query {
            Some(query) => playlist.id matches Some(id) && query@ == (ListQueryView::PlaylistItems {
                playlist_id: id@,
            }),
            None => playlist.id is None,
        },
{
    match &playlist.id {
        Some(id) => Some(ListQuery::PlaylistItems { playlist_id: id.clone() }),
        None => None,
    }
}

/// The record of a playlist with its entries: that of the playlist alone,
/// holding the records of the entries in their order.
pub open spec fn full_record(
    playlist: RemotePlaylist,
    items: Seq<RemotePlaylistItem>,
) -> PlaylistView {
    let record = playlist_record(playlist);
    PlaylistView {
        title: record.title,
        description: record.description,
        channel_title: record.channel_title,
        tags: record.tags,
        published_at: record.published_at,
        id: record.id,
        status: record.status,
        items: item_records(items),
    }
}

/// Normalises a remote playlist together with its entries.
pub fn complete_playlist(playlist: &RemotePlaylist, items: &Vec<RemotePlaylistItem>) -> (record:
    Playlist)
    ensures
        record@ == full_record(*playlist, items@),
{
    let mut record = parse_playlist(playlist);
    record.items = parse_items(items);
    record
}

/// What is exported.
#[derive(Debug, Clone, Copy, PartialEq, Eq, Structural)]
pub enum Export {
    /// The playlists that the remote lists, with their entries.
    Playlists,
    /// The entries found in a saved playlist page.
    SavedPage,
}

impl Export {
    /// The name of the file written to when none is named.
    pub open spec fn default_name(self) -> Seq<char> {
        match self {
            Export::Playlists => "youtube-output.json"@,
            Export::SavedPage => "youtube-output-wl.json"@,
        }
    }

    /// The name of the file written to when none is named.
    pub fn default_file_name(&self) -> (name: &'static str)
        ensures
            name@ == self.default_name(),
    {
        match self {
            Export::Playlists => "youtube-output.json",
            Export::SavedPage => "youtube-output-wl.json",
        }
    }

    /// The file to write to: the one named, or the default of this export.
    pub fn output_path(&self, named: Option<String>) -> (path: String)
        ensures
            path@ == match named {
                Some(named) => named@,
                None => self.default_name(),
            },
    {
        match named {
            Some(named) => named,
            None => self.default_file_name().to_owned(),
        }
    }
}

} // verus!
