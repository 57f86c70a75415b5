use playlist_export::export::{complete_playlist, items_query, Export};
use playlist_export::normalize::{parse_playlist, parse_playlist_item};
use playlist_export::paging::ListQuery;
use playlist_export::remote::{
    RemoteContentDetails, RemoteItemSnippet, RemotePlaylist, RemotePlaylistItem,
};

fn playlist(id: Option<&str>) -> RemotePlaylist {
    RemotePlaylist { id: id.map(String::from), status: None, snippet: None }
}

fn remote_item(title: &str, video: &str) -> RemotePlaylistItem {
    RemotePlaylistItem {
        snippet: Some(RemoteItemSnippet {
            title: Some(String::from(title)),
            position: None,
            published_at: None,
            description: None,
        }),
        content_details: Some(RemoteContentDetails {
            video_id: Some(String::from(video)),
            video_published_at: None,
        }),
    }
}

#[test]
fn playlist_with_an_id_has_its_items_fetched() {
    assert_eq!(
        items_query(&playlist(Some("PL7"))),
        Some(ListQuery::PlaylistItems { playlist_id: String::from("PL7") })
    );
}

#[test]
fn playlist_without_an_id_is_skipped() {
    assert_eq!(items_query(&playlist(None)), None);
}

#[test]
fn complete_playlist_holds_the_items_in_order() {
    let remote = playlist(Some("PL7"));
    let items = vec![remote_item("b", "v2"), remote_item("a", "v1")];
    let record = complete_playlist(&remote, &items);
    let mut expected = parse_playlist(&remote);
    expected.items = vec![parse_playlist_item(&items[0]), parse_playlist_item(&items[1])];
    assert_eq!(record, expected);
    assert_eq!(record.items[0].link, "https://www.youtube.com/watch?v=v2");
    assert_eq!(record.items[1].title, "a");
}

#[test]
fn complete_playlist_without_items_is_the_bare_record() {
    let remote = playlist(Some("PL7"));
    assert_eq!(complete_playlist(&remote, &Vec::new()), parse_playlist(&remote));
}

#[test]
fn default_file_names() {
    assert_eq!(Export::Playlists.default_file_name(), "youtube-output.json");
    assert_eq!(Export::SavedPage.default_file_name(), "youtube-output-wl.json");
}

#[test]
fn output_path_prefers_the_named_file() {
    assert_eq!(Export::Playlists.output_path(Some(String::from("mine.json"))), "mine.json");
    assert_eq!(Export::Playlists.output_path(None), "youtube-output.json");
    assert_eq!(Export::SavedPage.output_path(None), "youtube-output-wl.json");
}
