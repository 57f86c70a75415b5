use playlist_export::normalize::{parse_items, parse_playlist, parse_playlist_item};
use playlist_export::records::{Playlist, PlaylistItem};
use playlist_export::remote::{
    RemoteContentDetails, RemoteItemSnippet, RemotePlaylist, RemotePlaylistItem,
    RemotePlaylistSnippet, RemotePlaylistStatus,
};

fn text(s: &str) -> Option<String> {
    Some(String::from(s))
}

fn full_playlist() -> RemotePlaylist {
    RemotePlaylist {
        id: text("PL42"),
        status: Some(RemotePlaylistStatus { privacy_status: text("private") }),
        snippet: Some(RemotePlaylistSnippet {
            title: text("Road trip"),
            description: text("Songs for the road"),
            channel_title: text("Ada"),
            tags: Some(vec![String::from("a"), String::from("b"), String::from("c")]),
            published_at: text("2020-04-02T10:00:00Z"),
        }),
    }
}

fn full_item() -> RemotePlaylistItem {
    RemotePlaylistItem {
        snippet: Some(RemoteItemSnippet {
            title: text("Song"),
            position: Some(3),
            published_at: text("2020-05-01T00:00:00Z"),
            description: text("A song"),
        }),
        content_details: Some(RemoteContentDetails {
            video_id: text("dQw4w9WgXcQ"),
            video_published_at: text("2009-10-25T06:57:33Z"),
        }),
    }
}

#[test]
fn new_playlist_is_blank() {
    let playlist = Playlist::new();
    assert_eq!(playlist.title, "");
    assert_eq!(playlist.description, "");
    assert_eq!(playlist.channel_title, "");
    assert_eq!(playlist.tags, "");
    assert_eq!(playlist.published_at, "");
    assert_eq!(playlist.id, "");
    assert_eq!(playlist.status, "");
    assert!(playlist.items.is_empty());
}

#[test]
fn new_item_is_blank() {
    let item = PlaylistItem::new();
    assert_eq!(item.title, "");
    assert_eq!(item.link, "");
    assert_eq!(item.published_at, "");
    assert_eq!(item.position_in_playlist, 0);
    assert_eq!(item.description, "");
}

#[test]
fn playlist_with_every_field_is_kept_verbatim() {
    let record = parse_playlist(&full_playlist());
    assert_eq!(
        record,
        Playlist {
            title: String::from("Road trip"),
            description: String::from("Songs for the road"),
            channel_title: String::from("Ada"),
            tags: String::from("a, b, c"),
            published_at: String::from("2020-04-02T10:00:00Z"),
            id: String::from("PL42"),
            status: String::from("private"),
            items: Vec::new(),
        }
    );
}

#[test]
fn playlist_with_no_field_gets_the_defaults() {
    let record = parse_playlist(&RemotePlaylist { id: None, status: None, snippet: None });
    assert_eq!(
        record,
        Playlist {
            title: String::from("NO_TITLE"),
            description: String::new(),
            channel_title: String::from("NO_TITLE"),
            tags: String::new(),
            published_at: String::from("NO_TITLE"),
            id: String::new(),
            status: String::from("Unknown"),
            items: Vec::new(),
        }
    );
}

#[test]
fn playlist_with_empty_parts_gets_the_defaults() {
    let remote = RemotePlaylist {
        id: None,
        status: Some(RemotePlaylistStatus { privacy_status: None }),
        snippet: Some(RemotePlaylistSnippet {
            title: None,
            description: None,
            channel_title: None,
            tags: None,
            published_at: None,
        }),
    };
    let bare = parse_playlist(&RemotePlaylist { id: None, status: None, snippet: None });
    assert_eq!(parse_playlist(&remote), bare);
}

#[test]
fn playlist_without_snippet_keeps_its_id_and_status() {
    let mut remote = full_playlist();
    remote.snippet = None;
    let record = parse_playlist(&remote);
    assert_eq!(record.id, "PL42");
    assert_eq!(record.status, "private");
    assert_eq!(record.title, "NO_TITLE");
    assert_eq!(record.channel_title, "NO_TITLE");
    assert_eq!(record.published_at, "NO_TITLE");
    assert_eq!(record.description, "");
    assert_eq!(record.tags, "");
}

#[test]
fn playlist_without_status_is_unknown() {
    let mut remote = full_playlist();
    remote.status = None;
    assert_eq!(parse_playlist(&remote).status, "Unknown");
    remote.status = Some(RemotePlaylistStatus { privacy_status: None });
    assert_eq!(parse_playlist(&remote).status, "Unknown");
}

#[test]
fn playlist_tags_are_joined_with_comma_and_space() {
    let mut remote = full_playlist();
    assert_eq!(parse_playlist(&remote).tags, "a, b, c");
    remote.snippet.as_mut().unwrap().tags = Some(Vec::new());
    assert_eq!(parse_playlist(&remote).tags, "");
    remote.snippet.as_mut().unwrap().tags = None;
    assert_eq!(parse_playlist(&remote).tags, "");
    remote.snippet.as_mut().unwrap().tags = Some(vec![String::from("one tag")]);
    assert_eq!(parse_playlist(&remote).tags, "one tag");
}

#[test]
fn item_with_every_field_is_kept_verbatim() {
    assert_eq!(
        parse_playlist_item(&full_item()),
        PlaylistItem {
            title: String::from("Song"),
            link: String::from("https://www.youtube.com/watch?v=dQw4w9WgXcQ"),
            published_at: String::from("2020-05-01T00:00:00Z"),
            position_in_playlist: 3,
            description: String::from("A song"),
        }
    );
}

#[test]
fn item_with_no_field_gets_the_defaults() {
    let bare = RemotePlaylistItem { snippet: None, content_details: None };
    assert_eq!(parse_playlist_item(&bare), PlaylistItem::new());
    let hollow = RemotePlaylistItem {
        snippet: Some(RemoteItemSnippet {
            title: None,
            position: None,
            published_at: None,
            description: None,
        }),
        content_details: None,
    };
    assert_eq!(parse_playlist_item(&hollow), PlaylistItem::new());
}

#[test]
fn item_without_content_details_has_no_link() {
    let mut remote = full_item();
    remote.content_details = None;
    let record = parse_playlist_item(&remote);
    assert_eq!(record.link, "");
    assert_eq!(record.published_at, "2020-05-01T00:00:00Z");
}

#[test]
fn item_without_video_id_links_to_the_bare_prefix() {
    let mut remote = full_item();
    remote.content_details.as_mut().unwrap().video_id = None;
    assert_eq!(parse_playlist_item(&remote).link, "https://www.youtube.com/watch?v=");
}

#[test]
fn item_snippet_time_is_written_after_the_video_time() {
    let mut remote = full_item();
    assert_eq!(parse_playlist_item(&remote).published_at, "2020-05-01T00:00:00Z");
    remote.snippet.as_mut().unwrap().published_at = None;
    assert_eq!(parse_playlist_item(&remote).published_at, "");
}

#[test]
fn item_without_snippet_still_links_to_its_video() {
    let mut remote = full_item();
    remote.snippet = None;
    assert_eq!(
        parse_playlist_item(&remote),
        PlaylistItem {
            title: String::new(),
            link: String::from("https://www.youtube.com/watch?v=dQw4w9WgXcQ"),
            published_at: String::new(),
            position_in_playlist: 0,
            description: String::new(),
        }
    );
}

#[test]
fn item_never_takes_the_time_of_the_video() {
    let mut remote = full_item();
    remote.snippet.as_mut().unwrap().published_at = None;
    assert_eq!(parse_playlist_item(&remote).published_at, "");
    remote.snippet = None;
    assert_eq!(parse_playlist_item(&remote).published_at, "");
}

#[test]
fn item_position_defaults_to_zero() {
    let mut remote = full_item();
    remote.snippet.as_mut().unwrap().position = None;
    assert_eq!(parse_playlist_item(&remote).position_in_playlist, 0);
    remote.snippet.as_mut().unwrap().position = Some(u32::MAX);
    assert_eq!(parse_playlist_item(&remote).position_in_playlist, u32::MAX);
}

#[test]
fn items_are_normalised_in_their_order() {
    let mut second = full_item();
    second.snippet.as_mut().unwrap().title = text("Second");
    let bare = RemotePlaylistItem { snippet: None, content_details: None };
    let records = parse_items(&vec![full_item(), bare.clone(), second.clone()]);
    assert_eq!(
        records,
        vec![parse_playlist_item(&full_item()), PlaylistItem::new(), parse_playlist_item(&second)]
    );
    assert!(parse_items(&Vec::new()).is_empty());
}

#[test]
fn normalising_the_same_object_twice_gives_the_same_record() {
    let remote = full_playlist();
    assert_eq!(parse_playlist(&remote), parse_playlist(&remote));
    let item = full_item();
    assert_eq!(parse_playlist_item(&item), parse_playlist_item(&item));
}

#[test]
fn normalising_a_record_in_remote_shape_gives_the_record_again() {
    let record = parse_playlist(&full_playlist());
    let again = RemotePlaylist {
        id: Some(record.id.clone()),
        status: Some(RemotePlaylistStatus { privacy_status: Some(record.status.clone()) }),
        snippet: Some(RemotePlaylistSnippet {
            title: Some(record.title.clone()),
            description: Some(record.description.clone()),
            channel_title: Some(record.channel_title.clone()),
            tags: Some(vec![record.tags.clone()]),
            published_at: Some(record.published_at.clone()),
        }),
    };
    assert_eq!(parse_playlist(&again), record);

    let defaults = parse_playlist(&RemotePlaylist { id: None, status: None, snippet: None });
    let again = RemotePlaylist {
        id: Some(defaults.id.clone()),
        status: Some(RemotePlaylistStatus { privacy_status: Some(defaults.status.clone()) }),
        snippet: Some(RemotePlaylistSnippet {
            title: Some(defaults.title.clone()),
            description: Some(defaults.description.clone()),
            channel_title: Some(defaults.channel_title.clone()),
            tags: Some(vec![defaults.tags.clone()]),
            published_at: Some(defaults.published_at.clone()),
        }),
    };
    assert_eq!(parse_playlist(&again), defaults);
}

#[test]
fn normalising_an_item_in_remote_shape_gives_the_item_again() {
    let record = parse_playlist_item(&full_item());
    let again = RemotePlaylistItem {
        snippet: Some(RemoteItemSnippet {
            title: Some(record.title.clone()),
            position: Some(record.position_in_playlist),
            published_at: Some(record.published_at.clone()),
            description: Some(record.description.clone()),
        }),
        content_details: Some(RemoteContentDetails {
            video_id: text("dQw4w9WgXcQ"),
            video_published_at: None,
        }),
    };
    assert_eq!(parse_playlist_item(&again), record);
}
