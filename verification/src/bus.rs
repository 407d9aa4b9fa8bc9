//! What the session shares with the desktop remote-control channel: the
//! playback status, the now-playing track's metadata, the commands that
//! arrive from remote controllers, and the volume scale.

use vstd::prelude::*;
use crate::types::clone_opt_string;

verus! {

/// The externally visible playback state.
#[derive(Debug, Clone, Copy, PartialEq, Eq, Structural)]
pub enum PlaybackStatus {
    Playing,
    Paused,
    Stopped,
}

/// The wire name of a playback status.
pub open spec fn spec_status_name(s: PlaybackStatus) -> Seq<char> {
    match s {
        PlaybackStatus::Playing => "Playing"@,
        PlaybackStatus::Paused => "Paused"@,
        PlaybackStatus::Stopped => "Stopped"@,
    }
}

impl PlaybackStatus {
    /// The status as remote controllers spell it.
    pub fn as_str(&self) -> (r: &'static str)
        ensures
            r@ == spec_status_name(*self),
    {
        match self {
            PlaybackStatus::Playing => "Playing",
            PlaybackStatus::Paused => "Paused",
            PlaybackStatus::Stopped => "Stopped",
        }
    }
}

/// The now-playing track as the remote-control channel sees it: like
/// `types::Song` but without the album identifier, which only browsing
/// needs.
#[derive(Debug)]
pub struct Song {
    pub id: String,
    pub title: String,
    pub artist: Option<String>,
    pub album: Option<String>,
    pub duration: Option<i64>,
}

impl Clone for Song {
    fn clone(&self) -> (res: Song)
        ensures
            res == *self,
    {
        Song {
            id: self.id.clone(),
            title: self.title.clone(),
            artist: clone_opt_string(&self.artist),
            album: clone_opt_string(&self.album),
            duration: self.duration,
        }
    }
}

/// The bus-visible copy of a browsed track.
pub open spec fn spec_bus_song(s: crate::types::Song) -> Song {
    Song { id: s.id, title: s.title, artist: s.artist, album: s.album, duration: s.duration }
}

/// A browsed track restored from its bus-visible copy; the album identifier
/// is gone.
pub open spec fn spec_session_song(s: Song) -> crate::types::Song {
    crate::types::Song {
        id: s.id,
        title: s.title,
        album_id: None::<String>,
        artist: s.artist,
        album: s.album,
        duration: s.duration,
    }
}

/// Copies a browsed track into its bus-visible form.
pub fn bus_song_of(s: &crate::types::Song) -> (r: Song)
    ensures
        r == spec_bus_song(*s),
{
    Song {
        id: s.id.clone(),
        title: s.title.clone(),
        artist: clone_opt_string(&s.artist),
        album: clone_opt_string(&s.album),
        duration: s.duration,
    }
}

/// Rebuilds a playable track from what the bus reports as loaded.
pub fn session_song_of(s: &Song) -> (r: crate::types::Song)
    ensures
        r == spec_session_song(*s),
{
    crate::types::Song {
        id: s.id.clone(),
        title: s.title.clone(),
        album_id: None,
        artist: clone_opt_string(&s.artist),
        album: clone_opt_string(&s.album),
        duration: s.duration,
    }
}

/// A remote-control command. The volume rides as thousandths of full scale,
/// still unclamped.
#[derive(Debug, Clone, Copy)]
pub enum MprisCommand {
    Play,
    Pause,
    PlayPause,
    Stop,
    Next,
    Previous,
    Seek(i64),
    SetPosition(i64),
    SetVolume(i64),
}

/// A requested volume clamped to the unit range, in thousandths.
pub open spec fn spec_clamp_volume(v: i64) -> u64 {
    if v < 0 {
        0u64
    } else if v > 1000 {
        1000u64
    } else {
        v as u64
    }
}

/// Clamps a requested volume to the unit range, in thousandths of full
/// scale.
pub fn clamp_volume(v: i64) -> (r: u64)
    ensures
        r == spec_clamp_volume(v),
        r <= 1000,
{
    if v < 0 {
        0
    } else if v > 1000 {
        1000
    } else {
        v as u64
    }
}

} // verus!
