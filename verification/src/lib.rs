//! Normalises a user's video playlists, as listed by a remote service or as
//! found in a saved playlist page, into fully populated records.

pub mod dom;
pub mod export;
pub mod extract;
pub mod normalize;
pub mod paging;
pub mod records;
pub mod remote;
pub mod sink;
pub mod text;
pub mod video_id;
