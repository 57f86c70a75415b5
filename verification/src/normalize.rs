//! Turns remote playlists and their entries into canonical records. Every
//! field that may be missing is resolved to its default here, once.

use crate::records::{item_views, Playlist, PlaylistItem, PlaylistItemView, PlaylistView};
use crate::remote::{RemotePlaylist, RemotePlaylistItem};
use crate::text::{get_text, join, joined, text_or, views};
use vstd::prelude::*;
use vstd::string::StringExecFns;

verus! {

/// The status of a playlist whose visibility the remote does not give.
pub open spec fn unknown_status() -> Seq<char> {
    "Unknown"@
}

/// What stands for a missing title, channel title or publication time of a
/// playlist.
pub open spec fn no_title() -> Seq<char> {
    "NO_TITLE"@
}

/// What separates the tags of a playlist in its record.
pub open spec fn tag_separator() -> Seq<char> {
    ", "@
}

/// What the watch address of a video begins with; the video identifier
/// follows.
pub open spec fn watch_prefix() -> Seq<char> {
    "https://www.youtube.com/watch?v="@
}

/// The tags of a playlist as one string: joined by `", "`, empty where the
/// remote gives none.
pub open spec fn flat_tags(tags: Option<Vec<String>>) -> Seq<char> {
    match tags {
        Some(tags) => joined(views(tags@), tag_separator()),
        None => Seq::empty(),
    }
}

/// The record of a remote playlist, before its entries are fetched. The
/// identifier and the status come from the playlist itself, the other texts
/// from its descriptive part; without that part each of them has its default.
pub open spec fn playlist_record(remote: RemotePlaylist) -> PlaylistView {
    let id = text_or(remote.id, Seq::empty());
    let status = match remote.status {
        Some(status) => text_or(status.privacy_status, unknown_status()),
        None => unknown_status(),
    };
    match remote.snippet {
        Some(snippet) => PlaylistView {
            title: text_or(snippet.title, no_title()),
            description: text_or(snippet.description, Seq::empty()),
            channel_title: text_or(snippet.channel_title, no_title()),
            tags: flat_tags(snippet.tags),
            published_at: text_or(snippet.published_at, no_title()),
            id,
            status,
            items: Seq::empty(),
        },
        None => PlaylistView {
            title: no_title(),
            description: Seq::empty(),
            channel_title: no_title(),
            tags: Seq::empty(),
            published_at: no_title(),
            id,
            status,
            items: Seq::empty(),
        },
    }
}

/// Normalises one remote playlist. The record has no entries yet.
pub fn parse_playlist(playlist: &RemotePlaylist) -> (info: Playlist)
    ensures
        info@ == playlist_record(*playlist),
{
    let playlist_id = get_text(&playlist.id, "");
    let playlist_status = match &playlist.status {
        Some(status) => get_text(&status.privacy_status, "Unknown"),
        None => "Unknown".to_owned(),
    };

    let mut info = Playlist::new();
    match &playlist.snippet {
        Some(snippet) => {
            info.title = get_text(&snippet.title, "NO_TITLE");
            info.description = get_text(&snippet.description, "");
            info.channel_title = get_text(&snippet.channel_title, "NO_TITLE");
            info.tags = match &snippet.tags {
                Some(tags) => join(tags, ", "),
                None => String::new(),
            };
            info.published_at = get_text(&snippet.published_at, "NO_TITLE");
        },
        None => {
            info.title = "NO_TITLE".to_owned();
            info.channel_title = "NO_TITLE".to_owned();
            info.published_at = "NO_TITLE".to_owned();
        },
    }
    info.id = playlist_id;
    info.status = playlist_status;

    proof {
        reveal_strlit("");
        assert(""@ == Seq::<char>::empty());
    }
    info
}

/// The record of a remote playlist entry. The link is the watch address of
/// the video that the entry names, and empty where it names none. The other
/// fields come from the descriptive part, each with its default. The
/// publication time of the video itself never stands in the record: that of
/// the entry, or the empty default for it, is written after it.
pub open spec fn item_record(remote: RemotePlaylistItem) -> PlaylistItemView {
    PlaylistItemView {
        title: match remote.snippet {
            Some(snippet) => text_or(snippet.title, Seq::empty()),
            None => Seq::empty(),
        },
        link: match remote.content_details {
            Some(details) => watch_prefix() + text_or(details.video_id, Seq::empty()),
            None => Seq::empty(),
        },
        published_at: match remote.snippet {
            Some(snippet) => text_or(snippet.published_at, Seq::empty()),
            None => Seq::empty(),
        },
        position_in_playlist: match remote.snippet {
            Some(snippet) => match snippet.position {
                Some(position) => position,
                None => 0,
            },
            None => 0,
        },
        description: match remote.snippet {
            Some(snippet) => text_or(snippet.description, Seq::empty()),
            None => Seq::empty(),
        },
    }
}

/// Normalises one remote playlist entry.
pub fn parse_playlist_item(item: &RemotePlaylistItem) -> (info: PlaylistItem)
    ensures
        info@ == item_record(*item),
{
    let mut info = PlaylistItem::new();
    proof {
        reveal_strlit("");
        assert(""@ == Seq::<char>::empty());
    }

    match &item.content_details {
        Some(details) => {
            let video_id = get_text(&details.video_id, "");
            info.published_at = get_text(&details.video_published_at, "");
            info.link = "https://www.youtube.com/watch?v=".to_owned().concat(video_id.as_str());
        },
        None => {},
    }
    // The time of the entry is written after that of the video, and replaces it.
    match &item.snippet {
        Some(snippet) => {
            info.title = get_text(&snippet.title, "");
            info.position_in_playlist = match snippet.position {
                Some(position) => position,
                None => 0u32,
            };
            info.published_at = get_text(&snippet.published_at, "");
            info.description = get_text(&snippet.description, "");
        },
        None => {
            info.published_at = String::new();
        },
    }
    info
}

/// The records of remote playlist entries, one for one and in their order.
pub open spec fn item_records(remote: Seq<RemotePlaylistItem>) -> Seq<PlaylistItemView> {
    remote.map_values(|item: RemotePlaylistItem| item_record(item))
}

/// Normalises the entries of one playlist, keeping their order.
pub fn parse_items(items: &Vec<RemotePlaylistItem>) -> (records: Vec<PlaylistItem>)
    ensures
        item_views(records@) == item_records(items@),
{
    let mut records: Vec<PlaylistItem> = Vec::new();
    let mut i: usize = 0;
    while i < items.len()
        invariant
            i <= items.len(),
            item_views(records@) == item_records(items@.take(i as int)),
        decreases items.len() - i,
    {
        let record = parse_playlist_item(&items[i]);
        let ghost before = records@;
        records.push(record);
        proof {
            let done = items@.take(i as int);
            assert(items@.take(i + 1) == done.push(items@[i as int]));
            assert(item_views(records@) =~= item_views(before).push(record@));
            assert(item_records(done.push(items@[i as int])) =~= item_records(done).push(
                item_record(items@[i as int]),
            ));
        }
        i += 1;
    }
    assert(items@.take(items.len() as int) == items@);
    records
}

/// Whether a remote playlist gives every optional field.
pub open spec fn playlist_is_full(remote: RemotePlaylist) -> bool {
    &&& remote.id is Some
    &&& remote.status matches Some(status) && status.privacy_status is Some
    &&& remote.snippet matches Some(snippet) && {
        &&& snippet.title is Some
        &&& snippet.description is Some
        &&& snippet.channel_title is Some
        &&& snippet.tags is Some
        &&& snippet.published_at is Some
    }
}

/// Whether a remote playlist gives no optional field: each part is
/// missing, or is there with nothing in it.
pub open spec fn playlist_is_bare(remote: RemotePlaylist) -> bool {
    &&& remote.id is None
    &&& remote.status matches Some(status) ==> status.privacy_status is None
    &&& remote.snippet matches Some(snippet) ==> {
        &&& snippet.title is None
        &&& snippet.description is None
        &&& snippet.channel_title is None
        &&& snippet.tags is None
        &&& snippet.published_at is None
    }
}

/// The record of a playlist that gives every optional field holds each
/// field as it was given, the tags joined by `", "`.
pub proof fn lemma_full_playlist_verbatim(remote: RemotePlaylist)
    requires
        playlist_is_full(remote),
    ensures
        ({
            let snippet = remote.snippet.unwrap();
            playlist_record(remote) == PlaylistView {
                title: snippet.title.unwrap()@,
                description: snippet.description.unwrap()@,
                channel_title: snippet.channel_title.unwrap()@,
                tags: joined(views(snippet.tags.unwrap()@), tag_separator()),
                published_at: snippet.published_at.unwrap()@,
                id: remote.id.unwrap()@,
                status: remote.status.unwrap().privacy_status.unwrap()@,
                items: Seq::empty(),
            }
        }),
{
}

/// The record of a playlist that gives no optional field holds the
/// defaults: `"Unknown"` for the status, `"NO_TITLE"` for the title, the
/// channel title and the publication time, and the empty text elsewhere.
pub proof fn lemma_bare_playlist_defaults(remote: RemotePlaylist)
    requires
        playlist_is_bare(remote),
    ensures
        playlist_record(remote) == (PlaylistView {
            title: no_title(),
            description: Seq::empty(),
            channel_title: no_title(),
            tags: Seq::empty(),
            published_at: no_title(),
            id: Seq::empty(),
            status: unknown_status(),
            items: Seq::empty(),
        }),
{
}

/// Whether a remote playlist entry gives every optional field.
pub open spec fn item_is_full(remote: RemotePlaylistItem) -> bool {
    &&& remote.snippet matches Some(snippet) && {
        &&& snippet.title is Some
        &&& snippet.position is Some
        &&& snippet.published_at is Some
        &&& snippet.description is Some
    }
    &&& remote.content_details matches Some(details) && {
        &&& details.video_id is Some
        &&& details.video_published_at is Some
    }
}

/// Whether a remote playlist entry gives no optional field.
pub open spec fn item_is_bare(remote: RemotePlaylistItem) -> bool {
    &&& remote.content_details is None
    &&& remote.snippet matches Some(snippet) ==> {
        &&& snippet.title is None
        &&& snippet.position is None
        &&& snippet.published_at is None
        &&& snippet.description is None
    }
}

/// The record of an entry that gives every optional field holds each field
/// as it was given: the link is the watch address of the video, and the
/// publication time is that of the descriptive part.
pub proof fn lemma_full_item_verbatim(remote: RemotePlaylistItem)
    requires
        item_is_full(remote),
    ensures
        ({
            let snippet = remote.snippet.unwrap();
            item_record(remote) == PlaylistItemView {
                title: snippet.title.unwrap()@,
                link: watch_prefix() + remote.content_details.unwrap().video_id.unwrap()@,
                published_at: snippet.published_at.unwrap()@,
                position_in_playlist: snippet.position.unwrap(),
                description: snippet.description.unwrap()@,
            }
        }),
{
}

/// The record of an entry that gives no optional field holds the defaults:
/// position 0 and every text empty.
pub proof fn lemma_bare_item_defaults(remote: RemotePlaylistItem)
    requires
        item_is_bare(remote),
    ensures
        item_record(remote) == PlaylistItemView::blank(),
{
}

/// Whether a remote playlist has the shape of `record`: it gives every
/// optional field, each with what the record holds, the tags as the one
/// flattened string.
pub open spec fn playlist_carries(remote: RemotePlaylist, record: PlaylistView) -> bool {
    &&& playlist_is_full(remote)
    &&& remote.id.unwrap()@ == record.id
    &&& remote.status.unwrap().privacy_status.unwrap()@ == record.status
    &&& remote.snippet.unwrap().title.unwrap()@ == record.title
    &&& remote.snippet.unwrap().description.unwrap()@ == record.description
    &&& remote.snippet.unwrap().channel_title.unwrap()@ == record.channel_title
    &&& views(remote.snippet.unwrap().tags.unwrap()@) == seq![record.tags]
    &&& remote.snippet.unwrap().published_at.unwrap()@ == record.published_at
}

/// Normalising again changes nothing: a remote playlist that has the shape
/// of the record of some remote playlist has that same record.
pub proof fn lemma_playlist_idempotent(remote: RemotePlaylist, again: RemotePlaylist)
    requires
        playlist_carries(again, playlist_record(remote)),
    ensures
        playlist_record(again) == playlist_record(remote),
{
    assert(joined(seq![playlist_record(remote).tags], tag_separator()) == playlist_record(
        remote,
    ).tags);
}

/// Whether a remote playlist entry has the shape of `record`: its
/// descriptive part gives every field with what the record holds, and it
/// names a video exactly where the record has a link, the one whose watch
/// address the link is.
pub open spec fn item_carries(remote: RemotePlaylistItem, record: PlaylistItemView) -> bool {
    &&& remote.snippet matches Some(snippet) && {
        &&& snippet.title matches Some(title) && title@ == record.title
        &&& snippet.position == Some(record.position_in_playlist)
        &&& snippet.published_at matches Some(time) && time@ == record.published_at
        &&& snippet.description matches Some(text) && text@ == record.description
    }
    &&& match remote.content_details {
        Some(details) => details.video_id matches Some(id) && watch_prefix() + id@ == record.link,
        None => record.link == Seq::<char>::empty(),
    }
}

/// Normalising again changes nothing: a remote entry that has the shape of
/// the record of some remote entry has that same record.
pub proof fn lemma_item_idempotent(remote: RemotePlaylistItem, again: RemotePlaylistItem)
    requires
        item_carries(again, item_record(remote)),
    ensures
        item_record(again) == item_record(remote),
{
}

/// Normalising the same remote objects twice gives records that hold the
/// same.
pub proof fn lemma_normalizing_repeatable(
    playlist: RemotePlaylist,
    first: Playlist,
    second: Playlist,
    item: RemotePlaylistItem,
    first_item: PlaylistItem,
    second_item: PlaylistItem,
)
    requires
        first@ == playlist_record(playlist),
        second@ == playlist_record(playlist),
        first_item@ == item_record(item),
        second_item@ == item_record(item),
    ensures
        first@ == second@,
        first_item@ == second_item@,
{
}

} // verus!
