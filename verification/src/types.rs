//! The data model: tracks, albums, artists, search results, view and
//! playback-source tags, and the plain shapes of the server's responses.

use vstd::prelude::*;

verus! {

/// The client's configuration: where the server is, who we are, and a
/// display-flavor toggle.
#[derive(Debug)]
pub struct Config {
    pub base_url: String,
    pub username: String,
    pub password: String,
    pub show_easter_eggs: bool,
}

impl Clone for Config {
    fn clone(&self) -> (res: Config)
        ensures
            res == *self,
    {
        Config {
            base_url: self.base_url.clone(),
            username: self.username.clone(),
            password: self.password.clone(),
            show_easter_eggs: self.show_easter_eggs,
        }
    }
}

/// The default value of `Config::show_easter_eggs` when a stored
/// configuration does not mention it.
pub fn default_true() -> (r: bool)
    ensures
        r == true,
{
    true
}

/// An artist as browsed in the artist list.
#[derive(Debug)]
pub struct Artist {
    pub id: String,
    pub name: String,
}

/// An album as browsed in an artist's album list.
#[derive(Debug)]
pub struct Album {
    pub id: String,
    pub name: String,
    pub artist_id: Option<String>,
}

/// A single playable track with its display metadata.
#[derive(Debug)]
pub struct Song {
    pub id: String,
    pub title: String,
    pub album_id: Option<String>,
    pub artist: Option<String>,
    pub album: Option<String>,
    pub duration: Option<i64>,
}

/// Clones an optional string; written out so that the copy is known to equal
/// the original.
pub fn clone_opt_string(s: &Option<String>) -> (r: Option<String>)
    ensures
        r == *s,
{
    match s {
        Some(x) => Some(x.clone()),
        None => None,
    }
}

impl Clone for Artist {
    fn clone(&self) -> (res: Artist)
        ensures
            res == *self,
    {
        Artist { id: self.id.clone(), name: self.name.clone() }
    }
}

impl Clone for Album {
    fn clone(&self) -> (res: Album)
        ensures
            res == *self,
    {
        Album {
            id: self.id.clone(),
            name: self.name.clone(),
            artist_id: clone_opt_string(&self.artist_id),
        }
    }
}

impl Clone for Song {
    fn clone(&self) -> (res: Song)
        ensures
            res == *self,
    {
        Song {
            id: self.id.clone(),
            title: self.title.clone(),
            album_id: clone_opt_string(&self.album_id),
            artist: clone_opt_string(&self.artist),
            album: clone_opt_string(&self.album),
            duration: self.duration,
        }
    }
}

/// Clones a song list; the copy's contents are known to equal the
/// original's.
pub fn clone_songs(songs: &Vec<Song>) -> (r: Vec<Song>)
    ensures
        r@ == songs@,
{
    let r = songs.clone();
    assert(r@ =~= songs@);
    r
}

/// One row of a search result: either an album hit or a song hit.
#[derive(Debug)]
pub enum SearchResultItem {
    Album { id: String, name: String, artist: String, artist_id: String },
    Song {
        id: String,
        title: String,
        artist: String,
        album_id: String,
        album: Option<String>,
        duration: Option<i64>,
    },
}

/// Which of the four browseable screens is active.
#[derive(Debug, Clone, PartialEq, Eq, Structural)]
pub enum ViewType {
    Artists,
    Albums,
    Songs,
    Search,
}

/// Why the currently playing track was chosen; decides what "next",
/// "previous" and a natural track finish play afterwards.
#[derive(Debug)]
pub enum PlaybackSource {
    Queue,
    Album { album_songs: Vec<Song>, current_index: usize },
    Search,
    Other,
}

/// Whether two playback sources carry the same variant and, for an album
/// context, the same track list contents and position.
pub open spec fn source_eq(a: PlaybackSource, b: PlaybackSource) -> bool {
    match (a, b) {
        (PlaybackSource::Queue, PlaybackSource::Queue) => true,
        (PlaybackSource::Search, PlaybackSource::Search) => true,
        (PlaybackSource::Other, PlaybackSource::Other) => true,
        (
            PlaybackSource::Album { album_songs: s1, current_index: i1 },
            PlaybackSource::Album { album_songs: s2, current_index: i2 },
        ) => s1@ == s2@ && i1 == i2,
        _ => false,
    }
}

impl Clone for SearchResultItem {
    fn clone(&self) -> (res: SearchResultItem)
        ensures
            res == *self,
    {
        match self {
            SearchResultItem::Album { id, name, artist, artist_id } => SearchResultItem::Album {
                id: id.clone(),
                name: name.clone(),
                artist: artist.clone(),
                artist_id: artist_id.clone(),
            },
            SearchResultItem::Song { id, title, artist, album_id, album, duration } => (
            SearchResultItem::Song {
                id: id.clone(),
                title: title.clone(),
                artist: artist.clone(),
                album_id: album_id.clone(),
                album: clone_opt_string(album),
                duration: *duration,
            }),
        }
    }
}

impl Clone for PlaybackSource {
    fn clone(&self) -> (res: PlaybackSource)
        ensures
            source_eq(res, *self),
    {
        match self {
            PlaybackSource::Queue => PlaybackSource::Queue,
            PlaybackSource::Search => PlaybackSource::Search,
            PlaybackSource::Other => PlaybackSource::Other,
            PlaybackSource::Album { album_songs, current_index } => PlaybackSource::Album {
                album_songs: clone_songs(album_songs),
                current_index: *current_index,
            },
        }
    }
}

} // verus!
