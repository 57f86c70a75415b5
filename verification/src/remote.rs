//! The shapes in which the remote listing service answers. Nearly every
//! field may be missing.

use vstd::prelude::*;

verus! {

/// The visibility part of a remote playlist.
#[derive(Debug, Clone, PartialEq, Eq)]
pub struct RemotePlaylistStatus {
    pub privacy_status: Option<String>,
}

/// The descriptive part of a remote playlist.
#[derive(Debug, Clone, PartialEq, Eq)]
pub struct RemotePlaylistSnippet {
    pub title: Option<String>,
    pub description: Option<String>,
    pub channel_title: Option<String>,
    pub tags: Option<Vec<String>>,
    pub published_at: Option<String>,
}

/// A playlist as the remote service lists it.
#[derive(Debug, Clone, PartialEq, Eq)]
pub struct RemotePlaylist {
    pub id: Option<String>,
    pub status: Option<RemotePlaylistStatus>,
    pub snippet: Option<RemotePlaylistSnippet>,
}

/// The descriptive part of a remote playlist entry.
#[derive(Debug, Clone, PartialEq, Eq)]
pub struct RemoteItemSnippet {
    pub title: Option<String>,
    pub position: Option<u32>,
    pub published_at: Option<String>,
    pub description: Option<String>,
}

/// The part of a remote playlist entry that names the video.
#[derive(Debug, Clone, PartialEq, Eq)]
pub struct RemoteContentDetails {
    pub video_id: Option<String>,
    pub video_published_at: Option<String>,
}

/// A playlist entry as the remote service lists it.
#[derive(Debug, Clone, PartialEq, Eq)]
pub struct RemotePlaylistItem {
    pub snippet: Option<RemoteItemSnippet>,
    pub content_details: Option<RemoteContentDetails>,
}

} // verus!
