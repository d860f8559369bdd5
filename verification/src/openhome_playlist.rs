//! The native OpenHome playlist of a renderer, as exposed to clients.
use vstd::prelude::*;

verus! {

/// Snapshot of the native OpenHome playlist of a renderer.
#[derive(Debug, Clone)]
pub struct OpenHomePlaylistSnapshot {
    /// The renderer.
    pub renderer_id: String,
    /// The current id in the playlist, if known.
    pub current_id: Option<u32>,
    /// The tracks of the playlist.
    pub tracks: Vec<OpenHomePlaylistTrack>,
}

/// A track of the native OpenHome playlist.
#[derive(Debug, Clone)]
pub struct OpenHomePlaylistTrack {
    /// OpenHome id of the track.
    pub id: u32,
    /// URI to play.
    pub uri: String,
    /// Title, when the renderer gives one.
    pub title: Option<String>,
    /// Artist.
    pub artist: Option<String>,
    /// Album.
    pub album: Option<String>,
    /// Cover URI.
    pub album_art_uri: Option<String>,
}

} // verus!
