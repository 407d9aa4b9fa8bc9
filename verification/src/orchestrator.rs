//! The playback orchestrator's decision logic: what to play after a user or
//! remote command or a naturally finished track, with the queue always
//! taking priority, and how a successful play or a stop is committed to the
//! session state.

use vstd::prelude::*;
use vstd::string::StringExecFns;
use crate::bus::{spec_clamp_volume, spec_session_song, MprisCommand, PlaybackStatus};
use crate::types::{clone_songs, source_eq, PlaybackSource, Song};
use crate::view::App;

verus! {

/// What the session should do about playback: start a track (remembering
/// its provenance and whether it must first leave the queue), stop (perhaps
/// forgetting the provenance and the now-playing metadata), or nothing.
#[derive(Debug)]
pub enum PlayPlan {
    Start { song: Song, source: PlaybackSource, from_queue: bool },
    Stop { clear_source: bool, clear_now_playing: bool },
    Nothing,
}

/// The plan starts the queue's head track, to be dequeued on success, with
/// queue provenance.
pub open spec fn start_of_queue(a: App, p: PlayPlan) -> bool {
    p matches PlayPlan::Start { song, source, from_queue } && song == a.queue@[0]
        && source is Queue && from_queue
}

/// The plan starts track `j` of the album context `album_songs`, with the
/// context carried on at position `j`, not touching the queue.
pub open spec fn start_of_album(p: PlayPlan, album_songs: Seq<Song>, j: int) -> bool {
    p matches PlayPlan::Start { song, source, from_queue } && !from_queue && song == album_songs[j]
        && (source matches PlaybackSource::Album { album_songs: l, current_index: i } && l@
        == album_songs && i == j)
}

/// How playback advances (on "next", or when a track finishes naturally):
/// a non-empty queue always hands over its head track, whatever the current
/// source; an album context moves to the following track or, exhausted,
/// stops and is forgotten; any other source stops and is forgotten; with no
/// source at all, `when_no_source` happens.
pub open spec fn advance_plan_spec(a: App, p: PlayPlan, when_no_source: PlayPlan) -> bool {
    if a.queue@.len() > 0 {
        start_of_queue(a, p)
    } else {
        match a.current_playback_source {
            None => p == when_no_source,
            Some(src) => match src {
                PlaybackSource::Album { album_songs, current_index } => if current_index + 1
                    < album_songs@.len() {
                    start_of_album(p, album_songs@, current_index + 1)
                } else {
                    p == (PlayPlan::Stop { clear_source: true, clear_now_playing: true })
                },
                _ => p == (PlayPlan::Stop { clear_source: true, clear_now_playing: false }),
            },
        }
    }
}

/// The "next" decision: advance, and do nothing when nothing is playing
/// from a known source and the queue is empty.
pub open spec fn next_plan_spec(a: App, p: PlayPlan) -> bool {
    advance_plan_spec(a, p, PlayPlan::Nothing)
}

/// The track-finished decision: it only applies while the sink actually ran
/// dry (not paused) and the session believed it was playing; then advance,
/// and report a stop when the queue is empty and no source is known.
pub open spec fn finish_plan_spec(
    a: App,
    sink_paused: bool,
    sink_finished: bool,
    status: PlaybackStatus,
    p: PlayPlan,
) -> bool {
    if sink_finished && !sink_paused && status == PlaybackStatus::Playing {
        advance_plan_spec(a, p, PlayPlan::Stop { clear_source: false, clear_now_playing: false })
    } else {
        p is Nothing
    }
}

/// The "previous" decision: an album context replays the preceding track,
/// or track 0 again when already at the start (no underflow, restart
/// policy); any other known source restarts whatever the bus reports as
/// loaded, keeping its provenance, or does nothing when nothing is known.
pub open spec fn previous_plan_spec(a: App, loaded: Option<crate::bus::Song>, p: PlayPlan) -> bool {
    match a.current_playback_source {
        None => p is Nothing,
        Some(src) => match src {
            PlaybackSource::Album { album_songs, current_index } => if current_index > 0 {
                if current_index - 1 < album_songs@.len() {
                    start_of_album(p, album_songs@, current_index - 1)
                } else {
                    p is Nothing
                }
            } else {
                if album_songs@.len() > 0 {
                    start_of_album(p, album_songs@, 0)
                } else {
                    p is Nothing
                }
            },
            _ => match loaded {
                Some(bs) => p matches PlayPlan::Start { song, source, from_queue } && !from_queue
                    && song == spec_session_song(bs) && source_eq(source, src),
                None => p is Nothing,
            },
        },
    }
}

/// The play-from-queue decision (the user's "play next in queue"): hand
/// over the queue's head, or report a stop, forgetting the now-playing
/// metadata but not the source, when the queue is empty.
pub open spec fn queue_plan_spec(a: App, p: PlayPlan) -> bool {
    if a.queue@.len() > 0 {
        start_of_queue(a, p)
    } else {
        p == (PlayPlan::Stop { clear_source: false, clear_now_playing: true })
    }
}

impl App {
    /// Decides what "next" plays, without touching any state.
    pub fn next_plan(&self) -> (p: PlayPlan)
        ensures
            next_plan_spec(*self, p),
    {
        self.advance_plan(PlayPlan::Nothing)
    }

    /// Decides how to react to a naturally finished track, without touching
    /// any state.
    pub fn finish_plan(
        &self,
        sink_paused: bool,
        sink_finished: bool,
        status: PlaybackStatus,
    ) -> (p: PlayPlan)
        ensures
            finish_plan_spec(*self, sink_paused, sink_finished, status, p),
    {
        if sink_finished && !sink_paused && status == PlaybackStatus::Playing {
            self.advance_plan(
                PlayPlan::Stop { clear_source: false, clear_now_playing: false },
            )
        } else {
            PlayPlan::Nothing
        }
    }

    /// Decides what "previous" plays, given what the bus reports as the
    /// loaded track, without touching any state.
    pub fn previous_plan(&self, loaded: &Option<crate::bus::Song>) -> (p: PlayPlan)
        ensures
            previous_plan_spec(*self, *loaded, p),
    {
        match &self.current_playback_source {
            None => PlayPlan::Nothing,
            Some(src) => match src {
                PlaybackSource::Album { album_songs, current_index } => {
                    let i = *current_index;
                    if i > 0 {
                        if i - 1 < album_songs.len() {
                            PlayPlan::Start {
                                song: album_songs[i - 1].clone(),
                                source: PlaybackSource::Album {
                                    album_songs: clone_songs(album_songs),
                                    current_index: i - 1,
                                },
                                from_queue: false,
                            }
                        } else {
                            PlayPlan::Nothing
                        }
                    } else {
                        if album_songs.len() > 0 {
                            PlayPlan::Start {
                                song: album_songs[0].clone(),
                                source: PlaybackSource::Album {
                                    album_songs: clone_songs(album_songs),
                                    current_index: 0,
                                },
                                from_queue: false,
                            }
                        } else {
                            PlayPlan::Nothing
                        }
                    }
                },
                _ => match loaded {
                    Some(bs) => PlayPlan::Start {
                        song: crate::bus::session_song_of(bs),
                        source: src.clone(),
                        from_queue: false,
                    },
                    None => PlayPlan::Nothing,
                },
            },
        }
    }

    /// Decides what playing from the queue does, without touching any
    /// state.
    pub fn queue_plan(&self) -> (p: PlayPlan)
        ensures
            queue_plan_spec(*self, p),
    {
        match self.queue.front() {
            Some(song) => PlayPlan::Start {
                song: song.clone(),
                source: PlaybackSource::Queue,
                from_queue: true,
            },
            None => PlayPlan::Stop { clear_source: false, clear_now_playing: true },
        }
    }

    /// Decides whether restarting the queue does anything: only when tracks
    /// are pending does the sink halt and the queue's head start.
    pub fn restart_queue_plan(&self) -> (r: Option<PlayPlan>)
        ensures
            self.queue@.len() > 0 ==> (r matches Some(p) && start_of_queue(*self, p)),
            self.queue@.len() == 0 ==> r is None,
    {
        if self.queue.is_empty() {
            None
        } else {
            Some(self.queue_plan())
        }
    }

    /// The shared advance step behind "next" and the track-finished
    /// reaction.
    fn advance_plan(&self, when_no_source: PlayPlan) -> (p: PlayPlan)
        ensures
            advance_plan_spec(*self, p, when_no_source),
    {
        match self.queue.front() {
            Some(song) => PlayPlan::Start {
                song: song.clone(),
                source: PlaybackSource::Queue,
                from_queue: true,
            },
            None => match &self.current_playback_source {
                None => when_no_source,
                Some(src) => match src {
                    PlaybackSource::Album { album_songs, current_index } => {
                        let i = *current_index;
                        if album_songs.len() > 0 && i < album_songs.len() - 1 {
                            PlayPlan::Start {
                                song: album_songs[i + 1].clone(),
                                source: PlaybackSource::Album {
                                    album_songs: clone_songs(album_songs),
                                    current_index: i + 1,
                                },
                                from_queue: false,
                            }
                        } else {
                            PlayPlan::Stop { clear_source: true, clear_now_playing: true }
                        }
                    },
                    _ => PlayPlan::Stop { clear_source: true, clear_now_playing: false },
                },
            },
        }
    }

    /// Commits a successfully started track: the track leaves the queue if
    /// it came from there, and its provenance replaces the old one
    /// wholesale. A failed start never reaches this, so a failure leaves
    /// queue and provenance untouched.
    pub fn commit_play(&mut self, source: PlaybackSource, from_queue: bool)
        ensures
            *final(self) == (App {
                queue: final(self).queue,
                current_playback_source: Some(source),
                ..*old(self)
            }),
            from_queue && old(self).queue@.len() > 0 ==> final(self).queue@ == old(
                self,
            ).queue@.drop_first(),
            from_queue && old(self).queue@.len() == 0 ==> final(self).queue@ == old(self).queue@,
            !from_queue ==> final(self).queue@ == old(self).queue@,
    {
        if from_queue {
            let _dequeued = self.queue.dequeue_front();
        }
        self.current_playback_source = Some(source);
    }

    /// Commits a stop: the provenance is forgotten exactly when the plan
    /// says so (queue and view state stay as they are).
    pub fn commit_stop(&mut self, clear_source: bool)
        ensures
            clear_source ==> *final(self) == (App {
                current_playback_source: None::<PlaybackSource>,
                ..*old(self)
            }),
            !clear_source ==> *final(self) == *old(self),
    {
        if clear_source {
            self.current_playback_source = None;
        }
    }

    /// Announces the track about to play: a transient "Playing: ..."
    /// message, shown before the stream is even fetched, as a progress note.
    pub fn start_playback_note(&mut self, song: &Song)
        ensures
            *final(self) == (App {
                status_message: final(self).status_message,
                status_message_timeout: Some(2000u64),
                ..*old(self)
            }),
            final(self).status_message matches Some(m) && m@ == "Playing: "@ + song.title@,
    {
        let msg = String::from_str("Playing: ").concat(song.title.as_str());
        self.show_message(msg, 2000);
    }

    /// Notes the outcome of the user's pause toggle and says which status
    /// to report: paused afterwards means "Paused", otherwise "Resumed" and
    /// a playing status.
    pub fn toggle_pause_note(&mut self, paused_after: bool) -> (st: PlaybackStatus)
        ensures
            *final(self) == (App {
                status_message: final(self).status_message,
                status_message_timeout: Some(1500u64),
                ..*old(self)
            }),
            paused_after ==> st == PlaybackStatus::Paused && (final(self).status_message
                matches Some(m) && m@ == "Paused"@),
            !paused_after ==> st == PlaybackStatus::Playing && (final(self).status_message
                matches Some(m) && m@ == "Resumed"@),
    {
        if paused_after {
            self.show_message("Paused".to_owned(), 1500);
            PlaybackStatus::Paused
        } else {
            self.show_message("Resumed".to_owned(), 1500);
            PlaybackStatus::Playing
        }
    }
}

/// What the session does with one remote-control command.
#[derive(Debug)]
pub enum CommandEffect {
    /// Unpause the sink and report a playing status.
    Resume,
    /// Pause the sink and report a paused status.
    Pause,
    /// Toggle the sink's pause state, then report per `play_pause_report`.
    Toggle,
    /// Halt the sink, dropping its buffered audio, and report a stop.
    Halt,
    /// Carry out a playback plan.
    Launch(PlayPlan),
    /// Apply a clamped volume and report it.
    AdjustVolume { permille: u64 },
    Nothing,
}

/// Exactly which effect each remote command has, given the sink's state and
/// what the bus reports as loaded: "play" unpauses a paused sink and
/// otherwise starts the queue; "pause" only pauses a sink that is actually
/// playing something; "next", "previous" and "stop" follow the playback
/// rules; a requested volume is clamped to the unit range; seeking is not
/// supported and does nothing.
pub open spec fn command_effect_spec(
    cmd: MprisCommand,
    sink_paused: bool,
    sink_finished: bool,
    a: App,
    loaded: Option<crate::bus::Song>,
    e: CommandEffect,
) -> bool {
    match cmd {
        MprisCommand::Play => if sink_paused {
            e is Resume
        } else if a.queue@.len() > 0 {
            e matches CommandEffect::Launch(p) && start_of_queue(a, p)
        } else {
            e is Nothing
        },
        MprisCommand::Pause => if !sink_paused && !sink_finished {
            e is Pause
        } else {
            e is Nothing
        },
        MprisCommand::PlayPause => e is Toggle,
        MprisCommand::Stop => e is Halt,
        MprisCommand::Next => e matches CommandEffect::Launch(p) && next_plan_spec(a, p),
        MprisCommand::Previous => e matches CommandEffect::Launch(p) && previous_plan_spec(
            a,
            loaded,
            p,
        ),
        MprisCommand::Seek(_) => e is Nothing,
        MprisCommand::SetPosition(_) => e is Nothing,
        MprisCommand::SetVolume(v) => e matches CommandEffect::AdjustVolume { permille }
            && permille == spec_clamp_volume(v),
    }
}

impl App {
    /// Decides what one remote-control command does, without touching any
    /// state.
    pub fn command_effect(
        &self,
        cmd: &MprisCommand,
        sink_paused: bool,
        sink_finished: bool,
        loaded: &Option<crate::bus::Song>,
    ) -> (e: CommandEffect)
        ensures
            command_effect_spec(*cmd, sink_paused, sink_finished, *self, *loaded, e),
    {
        match cmd {
            MprisCommand::Play => {
                if sink_paused {
                    CommandEffect::Resume
                } else if !self.queue.is_empty() {
                    CommandEffect::Launch(self.queue_plan())
                } else {
                    CommandEffect::Nothing
                }
            },
            MprisCommand::Pause => {
                if !sink_paused && !sink_finished {
                    CommandEffect::Pause
                } else {
                    CommandEffect::Nothing
                }
            },
            MprisCommand::PlayPause => CommandEffect::Toggle,
            MprisCommand::Stop => CommandEffect::Halt,
            MprisCommand::Next => CommandEffect::Launch(self.next_plan()),
            MprisCommand::Previous => CommandEffect::Launch(self.previous_plan(loaded)),
            MprisCommand::Seek(_) => CommandEffect::Nothing,
            MprisCommand::SetPosition(_) => CommandEffect::Nothing,
            MprisCommand::SetVolume(v) => CommandEffect::AdjustVolume {
                permille: crate::bus::clamp_volume(*v),
            },
        }
    }
}

/// Which status to report after the pause toggle of a remote "play-pause":
/// paused afterwards reports "Paused"; otherwise "Playing", unless the sink
/// has nothing to play, which reports nothing.
pub fn play_pause_report(paused_after: bool, sink_finished: bool) -> (r: Option<PlaybackStatus>)
    ensures
        paused_after ==> r == Some(PlaybackStatus::Paused),
        !paused_after && !sink_finished ==> r == Some(PlaybackStatus::Playing),
        !paused_after && sink_finished ==> r is None,
{
    if paused_after {
        Some(PlaybackStatus::Paused)
    } else if !sink_finished {
        Some(PlaybackStatus::Playing)
    } else {
        None
    }
}

/// A non-empty queue always wins: whatever the current playback source,
/// "next" (and a natural track finish) dequeues and plays the queue's head.
pub proof fn lemma_queue_priority(a: App, p: PlayPlan, when_no_source: PlayPlan)
    requires
        a.queue@.len() > 0,
        advance_plan_spec(a, p, when_no_source),
    ensures
        start_of_queue(a, p),
{
}

/// "Next" at the last index of an album context with an empty queue clears
/// the playback source and stops, forgetting the now-playing metadata.
pub proof fn lemma_next_album_exhausted(a: App, p: PlayPlan, album_songs: Seq<Song>, i: int)
    requires
        a.queue@.len() == 0,
        a.current_playback_source matches Some(src) && (src
            matches PlaybackSource::Album { album_songs: l, current_index: j } && l@ == album_songs
            && j == i),
        i + 1 >= album_songs.len(),
        next_plan_spec(a, p),
    ensures
        p == (PlayPlan::Stop { clear_source: true, clear_now_playing: true }),
{
}

/// "Previous" at index 0 of an album context replays index 0 rather than
/// underflowing.
pub proof fn lemma_previous_at_start(
    a: App,
    loaded: Option<crate::bus::Song>,
    p: PlayPlan,
    album_songs: Seq<Song>,
)
    requires
        album_songs.len() > 0,
        a.current_playback_source matches Some(src) && (src
            matches PlaybackSource::Album { album_songs: l, current_index: j } && l@ == album_songs
            && j == 0),
        previous_plan_spec(a, loaded, p),
    ensures
        start_of_album(p, album_songs, 0),
{
}

/// A track finishing naturally inside an album context, with an empty
/// queue, plays the following track of that context, carrying the context
/// on at the advanced position.
pub proof fn lemma_finish_continues_album(
    a: App,
    p: PlayPlan,
    album_songs: Seq<Song>,
    i: int,
)
    requires
        a.queue@.len() == 0,
        a.current_playback_source matches Some(src) && (src
            matches PlaybackSource::Album { album_songs: l, current_index: j } && l@ == album_songs
            && j == i),
        i + 1 < album_songs.len(),
        finish_plan_spec(a, false, true, PlaybackStatus::Playing, p),
    ensures
        start_of_album(p, album_songs, i + 1),
{
}

} // verus!
