//! The view-transition state machine: key handling, drill-down and
//! back-navigation, and search mode entry and exit.

use vstd::prelude::*;
use vstd::string::StringExecFns;
use crate::text::{dec_str, pop_char, push_char, u64_to_string};
use crate::types::{clone_songs, PlaybackSource, SearchResultItem, Song, ViewType};
use crate::view::{
    spec_items_count, spec_reset_cursor, spec_wrap_next, spec_wrap_previous, App,
};

verus! {

/// What a key press asks the session to do beyond mutating the view state.
#[derive(Debug, Clone, Copy)]
pub enum Action {
    Quit,
    Select,
    AddToQueue,
    PlayNext,
    RestartQueue,
    Search,
    TogglePause,
}

/// A key event, as the navigation logic reads it.
#[derive(Debug, Clone, Copy, PartialEq, Eq, Structural)]
pub enum Key {
    Up,
    Down,
    Left,
    Right,
    Enter,
    Esc,
    Backspace,
    Char(char),
    Other,
}

/// The navigation context: which screen is active and which artist and album
/// it was reached through.
#[derive(Debug)]
pub struct NavContext {
    pub view: ViewType,
    pub artist_id: Option<String>,
    pub album_id: Option<String>,
}

/// The navigation context of a session state.
pub open spec fn nav_context(app: App) -> NavContext {
    NavContext {
        view: app.current_view,
        artist_id: app.current_artist_id,
        album_id: app.current_album_id,
    }
}

/// The navigation context after one step of back-navigation.
pub open spec fn spec_back_nav(c: NavContext) -> NavContext {
    match c.view {
        ViewType::Artists => c,
        ViewType::Albums => NavContext {
            view: ViewType::Artists,
            artist_id: None::<String>,
            album_id: c.album_id,
        },
        ViewType::Songs => NavContext {
            view: ViewType::Albums,
            artist_id: c.artist_id,
            album_id: None::<String>,
        },
        ViewType::Search => NavContext {
            view: ViewType::Artists,
            artist_id: None::<String>,
            album_id: None::<String>,
        },
    }
}

/// The navigation context after drilling down from the artist list into an
/// artist's albums.
pub open spec fn spec_drill_to_albums(c: NavContext, artist_id: String) -> NavContext {
    NavContext { view: ViewType::Albums, artist_id: Some(artist_id), album_id: c.album_id }
}

/// The navigation context after drilling down from an album list into an
/// album's songs.
pub open spec fn spec_drill_to_songs(c: NavContext, album_id: String) -> NavContext {
    NavContext { view: ViewType::Songs, artist_id: c.artist_id, album_id: Some(album_id) }
}

/// How one step of back-navigation changes the whole session state: the
/// navigation context steps back, the search results are discarded when the
/// search screen is left, the title falls back to the artist list's, and
/// everything else stays.
pub open spec fn back_transition(a: App, b: App) -> bool {
    match a.current_view {
        ViewType::Artists => b == a,
        ViewType::Albums => b == (App {
            current_view: ViewType::Artists,
            current_artist_id: None::<String>,
            current_base_content: b.current_base_content,
            ..a
        }) && b.current_base_content@ == "Artists"@,
        ViewType::Songs => b == (App {
            current_view: ViewType::Albums,
            current_album_id: None::<String>,
            ..a
        }),
        ViewType::Search => b == (App {
            current_view: ViewType::Artists,
            current_artist_id: None::<String>,
            current_album_id: None::<String>,
            search_results: b.search_results,
            current_base_content: b.current_base_content,
            ..a
        }) && b.search_results@ == Seq::<SearchResultItem>::empty() && b.current_base_content@
            == "Artists"@,
    }
}

impl App {
    /// One step of back-navigation: Albums fall back to Artists (forgetting
    /// the artist), Songs to Albums (forgetting the album), Search to
    /// Artists (discarding the results); the artist list is already the top.
    pub fn go_back(&mut self)
        ensures
            back_transition(*old(self), *final(self)),
            nav_context(*final(self)) == spec_back_nav(nav_context(*old(self))),
    {
        match self.current_view {
            ViewType::Artists => {},
            ViewType::Albums => {
                self.current_view = ViewType::Artists;
                self.current_artist_id = None;
                self.current_base_content = "Artists".to_owned();
            },
            ViewType::Songs => {
                self.current_view = ViewType::Albums;
                self.current_album_id = None;
            },
            ViewType::Search => {
                self.current_view = ViewType::Artists;
                self.current_artist_id = None;
                self.current_album_id = None;
                self.search_results = Vec::new();
                self.current_base_content = "Artists".to_owned();
            },
        }
    }
}

/// The selection cursor moved down one row, everything else unchanged.
pub open spec fn cursor_down(a: App, b: App) -> bool {
    b == (App { selected_index: spec_wrap_next(a.selected_index, spec_items_count(a)), ..a })
}

/// The selection cursor moved up one row, everything else unchanged.
pub open spec fn cursor_up(a: App, b: App) -> bool {
    b == (App { selected_index: spec_wrap_previous(a.selected_index, spec_items_count(a)), ..a })
}

/// On the artist list the session ends; anywhere else one step of
/// back-navigation is taken.
pub open spec fn quit_or_back(a: App, b: App, r: Option<Action>) -> bool {
    if a.current_view == ViewType::Artists {
        b == a && r == Some(Action::Quit)
    } else {
        back_transition(a, b) && r is None
    }
}

/// Search entry: key input is routed to a freshly emptied text buffer.
pub open spec fn began_search(a: App, b: App) -> bool {
    b == (App { in_search: true, search_string: b.search_string, ..a }) && b.search_string@
        == Seq::<char>::empty()
}

/// The queue's head track was dropped and a transient message shown; with an
/// empty queue nothing happens.
pub open spec fn removed_queue_front(a: App, b: App) -> bool {
    if a.queue@.len() > 0 {
        b == (App {
            queue: b.queue,
            status_message: b.status_message,
            status_message_timeout: Some(1500u64),
            ..a
        }) && b.queue@ == a.queue@.drop_first() && (b.status_message matches Some(m) && m@
            == "Removed from queue"@)
    } else {
        b == a
    }
}

/// The queue was emptied and a transient message shown; with an empty queue
/// nothing happens.
pub open spec fn cleared_queue(a: App, b: App) -> bool {
    if a.queue@.len() > 0 {
        b == (App {
            queue: b.queue,
            status_message: b.status_message,
            status_message_timeout: Some(1500u64),
            ..a
        }) && b.queue@ == Seq::<crate::types::Song>::empty() && (b.status_message matches Some(m)
            && m@ == "Queue cleared"@)
    } else {
        b == a
    }
}

/// The whole key-handling transition relation: given the state `a` before a
/// key press, the state `b` after it and the action `r` handed back, this
/// says exactly what each key does in each input mode (help overlay open,
/// search entry active, or normal browsing).
pub open spec fn key_transition(key: Key, a: App, b: App, r: Option<Action>) -> bool {
    if a.help_open {
        r is None && if key == Key::Char('q') || key == Key::Char('?') || key == Key::Esc {
            b == (App { help_open: false, ..a })
        } else {
            b == a
        }
    } else if a.in_search {
        match key {
            Key::Enter => b == (App { in_search: false, ..a }) && r == Some(Action::Search),
            Key::Esc => b == (App { in_search: false, search_string: b.search_string, ..a })
                && b.search_string@ == Seq::<char>::empty() && r is None,
            Key::Backspace => b == (App { search_string: b.search_string, ..a })
                && b.search_string@ == (if a.search_string@.len() > 0 {
                a.search_string@.drop_last()
            } else {
                a.search_string@
            }) && r is None,
            Key::Char(c) => b == (App { search_string: b.search_string, ..a }) && b.search_string@
                == a.search_string@.push(c) && r is None,
            _ => b == a && r is None,
        }
    } else {
        match key {
            Key::Up => cursor_up(a, b) && r is None,
            Key::Down => cursor_down(a, b) && r is None,
            Key::Right => b == a && r == Some(Action::Select),
            Key::Enter => b == a && r == Some(Action::Select),
            Key::Esc => quit_or_back(a, b, r),
            Key::Left => back_transition(a, b) && r is None,
            Key::Backspace => b == a && r is None,
            Key::Other => b == a && r is None,
            Key::Char(c) => if c == 'k' {
                cursor_up(a, b) && r is None
            } else if c == 'j' {
                cursor_down(a, b) && r is None
            } else if c == 'l' {
                b == a && r == Some(Action::Select)
            } else if c == 'q' {
                quit_or_back(a, b, r)
            } else if c == 'h' {
                back_transition(a, b) && r is None
            } else if c == '/' || c == 'i' {
                began_search(a, b) && r is None
            } else if c == 'a' {
                b == a && r == Some(Action::AddToQueue)
            } else if c == 'n' {
                b == a && r == Some(Action::PlayNext)
            } else if c == 'r' {
                removed_queue_front(a, b) && r is None
            } else if c == 'c' {
                cleared_queue(a, b) && r is None
            } else if c == 'p' {
                b == a && r == Some(Action::RestartQueue)
            } else if c == '?' {
                b == (App { help_open: true, ..a }) && r is None
            } else if c == ' ' {
                b == a && r == Some(Action::TogglePause)
            } else {
                b == a && r is None
            },
        }
    }
}

/// Applies one key press to the session state and hands back the action it
/// asks for, if any. The help overlay intercepts everything until dismissed;
/// search mode routes characters into the query buffer; otherwise keys move
/// the cursor, navigate, operate on the queue, or request playback actions.
pub fn handle_key(key: Key, app: &mut App) -> (r: Option<Action>)
    ensures
        key_transition(key, *old(app), *final(app), r),
{
    if app.help_open {
        match key {
            Key::Char(c) => {
                if c == 'q' || c == '?' {
                    app.help_open = false;
                }
            },
            Key::Esc => {
                app.help_open = false;
            },
            _ => {},
        }
        return None;
    }
    if app.in_search {
        match key {
            Key::Enter => {
                app.in_search = false;
                return Some(Action::Search);
            },
            Key::Esc => {
                app.in_search = false;
                app.search_string = String::new();
            },
            Key::Backspace => {
                let _popped = pop_char(&mut app.search_string);
            },
            Key::Char(c) => {
                push_char(&mut app.search_string, c);
            },
            _ => {},
        }
        return None;
    }
    match key {
        Key::Up => {
            app.previous();
            None
        },
        Key::Down => {
            app.next();
            None
        },
        Key::Right => Some(Action::Select),
        Key::Enter => Some(Action::Select),
        Key::Esc => {
            if app.current_view == ViewType::Artists {
                Some(Action::Quit)
            } else {
                app.go_back();
                None
            }
        },
        Key::Left => {
            app.go_back();
            None
        },
        Key::Backspace => None,
        Key::Other => None,
        Key::Char(c) => {
            if c == 'k' {
                app.previous();
                None
            } else if c == 'j' {
                app.next();
                None
            } else if c == 'l' {
                Some(Action::Select)
            } else if c == 'q' {
                if app.current_view == ViewType::Artists {
                    Some(Action::Quit)
                } else {
                    app.go_back();
                    None
                }
            } else if c == 'h' {
                app.go_back();
                None
            } else if c == '/' || c == 'i' {
                app.in_search = true;
                app.search_string = String::new();
                None
            } else if c == 'a' {
                Some(Action::AddToQueue)
            } else if c == 'n' {
                Some(Action::PlayNext)
            } else if c == 'r' {
                if app.queue.len() > 0 {
                    app.queue.remove_front_discard();
                    app.show_message("Removed from queue".to_owned(), 1500);
                }
                None
            } else if c == 'c' {
                if app.queue.len() > 0 {
                    app.queue.clear();
                    app.show_message("Queue cleared".to_owned(), 1500);
                }
                None
            } else if c == 'p' {
                Some(Action::RestartQueue)
            } else if c == '?' {
                app.help_open = true;
                None
            } else if c == ' ' {
                Some(Action::TogglePause)
            } else {
                None
            }
        },
    }
}

/// What selecting the highlighted row asks the session to do: load an
/// artist's albums, load an album's songs, or play a track with its
/// continuation context.
#[derive(Debug)]
pub enum SelectPlan {
    Nothing,
    LoadAlbums { artist_id: String },
    LoadSongs { album_id: String },
    LoadSongsFromSearch { album_id: String, artist_id: String },
    Play { song: Song, source: PlaybackSource },
}

/// Exactly which plan selection produces in each view: on Artists and Albums
/// a drill-down load keyed by the selected row's identifier; on Songs a play
/// of the selected track carrying the whole song list as its album context;
/// on Search a drill-down for an album hit and a direct play (with search
/// provenance and no continuation list) for a song hit. Nothing happens
/// without a valid selection.
pub open spec fn select_plan_spec(a: App, r: SelectPlan) -> bool {
    match a.selected_index {
        None => r is Nothing,
        Some(i) => match a.current_view {
            ViewType::Artists => if i < a.artists@.len() {
                r matches SelectPlan::LoadAlbums { artist_id } && artist_id == a.artists@[
                    i as int
                ].id
            } else {
                r is Nothing
            },
            ViewType::Albums => if i < a.albums@.len() {
                r matches SelectPlan::LoadSongs { album_id } && album_id == a.albums@[i as int].id
            } else {
                r is Nothing
            },
            ViewType::Songs => if i < a.songs@.len() {
                r matches SelectPlan::Play { song, source } && song == a.songs@[i as int] && (
                source matches PlaybackSource::Album { album_songs, current_index } && album_songs@
                    == a.songs@ && current_index == i)
            } else {
                r is Nothing
            },
            ViewType::Search => if i < a.search_results@.len() {
                match a.search_results@[i as int] {
                    SearchResultItem::Album { id, artist_id: aid, .. } => r
                        matches SelectPlan::LoadSongsFromSearch { album_id, artist_id }
                        && album_id == id && artist_id == aid,
                    SearchResultItem::Song { id, title, artist, album_id, .. } => r
                        matches SelectPlan::Play { song, source } && source is Search && song.id
                        == id && song.title == title && song.artist == Some(artist)
                        && song.album_id == Some(album_id) && song.album is None
                        && song.duration is None,
                }
            } else {
                r is Nothing
            },
        },
    }
}

impl App {
    /// Decides what selecting the highlighted row should do, without
    /// touching any state; the session performs the loads or the play and
    /// then commits the outcome.
    pub fn select_plan(&self) -> (r: SelectPlan)
        ensures
            select_plan_spec(*self, r),
    {
        let idx = match self.selected_index {
            Some(i) => i,
            None => {
                return SelectPlan::Nothing;
            },
        };
        match self.current_view {
            ViewType::Artists => {
                if idx < self.artists.len() {
                    SelectPlan::LoadAlbums { artist_id: self.artists[idx].id.clone() }
                } else {
                    SelectPlan::Nothing
                }
            },
            ViewType::Albums => {
                if idx < self.albums.len() {
                    SelectPlan::LoadSongs { album_id: self.albums[idx].id.clone() }
                } else {
                    SelectPlan::Nothing
                }
            },
            ViewType::Songs => {
                if idx < self.songs.len() {
                    SelectPlan::Play {
                        song: self.songs[idx].clone(),
                        source: PlaybackSource::Album {
                            album_songs: clone_songs(&self.songs),
                            current_index: idx,
                        },
                    }
                } else {
                    SelectPlan::Nothing
                }
            },
            ViewType::Search => {
                if idx < self.search_results.len() {
                    match &self.search_results[idx] {
                        SearchResultItem::Album { id, artist_id, .. } => (
                        SelectPlan::LoadSongsFromSearch {
                            album_id: id.clone(),
                            artist_id: artist_id.clone(),
                        }),
                        SearchResultItem::Song { id, title, artist, album_id, .. } => (
                        SelectPlan::Play {
                            song: Song {
                                id: id.clone(),
                                title: title.clone(),
                                album_id: Some(album_id.clone()),
                                artist: Some(artist.clone()),
                                album: None,
                                duration: None,
                            },
                            source: PlaybackSource::Search,
                        }),
                    }
                } else {
                    SelectPlan::Nothing
                }
            },
        }
    }

    /// Installs a freshly loaded artist list: the list is replaced, the
    /// cursor resets to the top (or to none when empty), and the title
    /// becomes the artist list's, with any flavor suffix appended.
    pub fn apply_artists(&mut self, artists: Vec<crate::types::Artist>, egg: &str)
        ensures
            *final(self) == (App {
                artists: final(self).artists,
                selected_index: spec_reset_cursor(artists@.len()),
                current_base_content: final(self).current_base_content,
                ..*old(self)
            }),
            final(self).artists@ == artists@,
            final(self).current_base_content@ == "Artists"@ + egg@,
    {
        let is_empty = artists.is_empty();
        self.artists = artists;
        if is_empty {
            self.selected_index = None;
        } else {
            self.selected_index = Some(0);
        }
        self.current_base_content = String::from_str("Artists").concat(egg);
    }

    /// Commits a drill-down from the artist list: records the artist,
    /// switches to the album view, installs the loaded album list, resets
    /// the cursor, and titles the view after the artist.
    pub fn apply_albums(
        &mut self,
        artist_id: String,
        artist_name: &str,
        albums: Vec<crate::types::Album>,
        egg: &str,
    )
        ensures
            *final(self) == (App {
                current_view: ViewType::Albums,
                current_artist_id: Some(artist_id),
                albums: final(self).albums,
                selected_index: spec_reset_cursor(albums@.len()),
                current_base_content: final(self).current_base_content,
                ..*old(self)
            }),
            final(self).albums@ == albums@,
            final(self).current_base_content@ == "Albums for "@ + artist_name@ + egg@,
            nav_context(*final(self)) == spec_drill_to_albums(nav_context(*old(self)), artist_id),
    {
        let is_empty = albums.is_empty();
        self.current_artist_id = Some(artist_id);
        self.current_view = ViewType::Albums;
        self.albums = albums;
        if is_empty {
            self.selected_index = None;
        } else {
            self.selected_index = Some(0);
        }
        self.current_base_content = String::from_str("Albums for ").concat(artist_name).concat(
            egg,
        );
    }

    /// Commits a drill-down from an album list: records the album, switches
    /// to the song view, installs the loaded song list, resets the cursor,
    /// and titles the view after the album.
    pub fn apply_songs(
        &mut self,
        album_id: String,
        album_name: &str,
        songs: Vec<Song>,
        egg: &str,
    )
        ensures
            *final(self) == (App {
                current_view: ViewType::Songs,
                current_album_id: Some(album_id),
                songs: final(self).songs,
                selected_index: spec_reset_cursor(songs@.len()),
                current_base_content: final(self).current_base_content,
                ..*old(self)
            }),
            final(self).songs@ == songs@,
            final(self).current_base_content@ == "Songs in "@ + album_name@ + egg@,
            nav_context(*final(self)) == spec_drill_to_songs(nav_context(*old(self)), album_id),
    {
        let is_empty = songs.is_empty();
        self.current_album_id = Some(album_id);
        self.current_view = ViewType::Songs;
        self.songs = songs;
        if is_empty {
            self.selected_index = None;
        } else {
            self.selected_index = Some(0);
        }
        self.current_base_content = String::from_str("Songs in ").concat(album_name).concat(egg);
    }

    /// Commits a drill-down from an album hit in the search results: records
    /// both the artist and the album it was reached through, then installs
    /// the album's songs as `apply_songs` does.
    pub fn apply_songs_from_search(
        &mut self,
        artist_id: String,
        album_id: String,
        album_name: &str,
        songs: Vec<Song>,
        egg: &str,
    )
        ensures
            *final(self) == (App {
                current_view: ViewType::Songs,
                current_artist_id: Some(artist_id),
                current_album_id: Some(album_id),
                songs: final(self).songs,
                selected_index: spec_reset_cursor(songs@.len()),
                current_base_content: final(self).current_base_content,
                ..*old(self)
            }),
            final(self).songs@ == songs@,
            final(self).current_base_content@ == "Songs in "@ + album_name@ + egg@,
    {
        self.current_artist_id = Some(artist_id);
        self.apply_songs(album_id, album_name, songs, egg);
    }
}

/// The highlighted track was appended to the queue and a transient message
/// names it and the new queue length; album hits and invalid selections
/// change nothing.
pub open spec fn added_to_queue(a: App, b: App) -> bool {
    match a.current_view {
        ViewType::Songs => match a.selected_index {
            Some(i) => if i < a.songs@.len() {
                enqueued_with_message(a, b, a.songs@[i as int])
            } else {
                b == a
            },
            None => b == a,
        },
        ViewType::Search => match a.selected_index {
            Some(i) => if i < a.search_results@.len() {
                match a.search_results@[i as int] {
                    SearchResultItem::Song { id, title, artist, album_id, .. } => (
                    enqueued_with_message(
                        a,
                        b,
                        Song {
                            id: id,
                            title: title,
                            album_id: Some(album_id),
                            artist: Some(artist),
                            album: None::<String>,
                            duration: None::<i64>,
                        },
                    )),
                    SearchResultItem::Album { .. } => b == a,
                }
            } else {
                b == a
            },
            None => b == a,
        },
        _ => b == a,
    }
}

/// The given track went to the queue's tail, and the status message shows
/// its title and the queue's new length for 1500 milliseconds.
pub open spec fn enqueued_with_message(a: App, b: App, song: Song) -> bool {
    b == (App {
        queue: b.queue,
        status_message: b.status_message,
        status_message_timeout: Some(1500u64),
        ..a
    }) && b.queue@ == a.queue@.push(song) && (b.status_message matches Some(m) && m@
        == "Added to queue: "@ + song.title@ + " (Queue: "@ + dec_str((a.queue@.len() + 1) as nat)
        + ")"@)
}

impl App {
    /// Appends the highlighted track to the queue (from the song view, or
    /// from a song hit in the search results) and shows how long the queue
    /// has become.
    pub fn add_selected_to_queue(&mut self)
        ensures
            added_to_queue(*old(self), *final(self)),
    {
        match self.current_view {
            ViewType::Songs => {
                if let Some(idx) = self.selected_index {
                    if idx < self.songs.len() {
                        let song = self.songs[idx].clone();
                        let title = song.title.clone();
                        self.enqueue_with_message(song, title);
                    }
                }
            },
            ViewType::Search => {
                if let Some(idx) = self.selected_index {
                    if idx < self.search_results.len() {
                        let picked: Option<Song> = match &self.search_results[idx] {
                            SearchResultItem::Song { id, title, artist, album_id, .. } => Some(
                                Song {
                                    id: id.clone(),
                                    title: title.clone(),
                                    album_id: Some(album_id.clone()),
                                    artist: Some(artist.clone()),
                                    album: None,
                                    duration: None,
                                },
                            ),
                            SearchResultItem::Album { .. } => None,
                        };
                        match picked {
                            Some(song) => {
                                let title = song.title.clone();
                                self.enqueue_with_message(song, title);
                            },
                            None => {},
                        }
                    }
                }
            },
            _ => {},
        }
    }

    /// Enqueues a track and shows the "added" message; `title` must be the
    /// track's own title.
    fn enqueue_with_message(&mut self, song: Song, title: String)
        requires
            title == song.title,
        ensures
            enqueued_with_message(*old(self), *final(self), song),
    {
        self.queue.enqueue(song);
        let n = self.queue.len();
        let n_str = u64_to_string(n as u64);
        let msg = String::from_str("Added to queue: ").concat(title.as_str()).concat(
            " (Queue: ",
        ).concat(n_str.as_str()).concat(")");
        self.show_message(msg, 1500);
    }

    /// Enters the search screen and titles it after the query about to run.
    pub fn begin_search(&mut self)
        ensures
            *final(self) == (App {
                current_view: ViewType::Search,
                current_base_content: final(self).current_base_content,
                ..*old(self)
            }),
            final(self).current_base_content@ == "Searching for \""@ + old(self).search_string@
                + "\"..."@,
    {
        self.current_view = ViewType::Search;
        self.current_base_content = String::from_str("Searching for \"").concat(
            self.search_string.as_str(),
        ).concat("\"...");
    }

    /// Installs freshly returned search results: the rows are replaced in
    /// the order received, the cursor resets, and the title shows the query
    /// and how many rows came back.
    pub fn apply_search_results(&mut self, items: Vec<SearchResultItem>, egg: &str)
        ensures
            *final(self) == (App {
                search_results: final(self).search_results,
                selected_index: spec_reset_cursor(items@.len()),
                current_base_content: final(self).current_base_content,
                ..*old(self)
            }),
            final(self).search_results@ == items@,
            final(self).current_base_content@ == "Search: "@ + old(self).search_string@ + " ("@
                + dec_str(items@.len() as nat) + " results)"@ + egg@,
    {
        let is_empty = items.is_empty();
        let n = items.len();
        self.search_results = items;
        if is_empty {
            self.selected_index = None;
        } else {
            self.selected_index = Some(0);
        }
        let n_str = u64_to_string(n as u64);
        self.current_base_content = String::from_str("Search: ").concat(
            self.search_string.as_str(),
        ).concat(" (").concat(n_str.as_str()).concat(" results)").concat(egg);
    }
}

/// Identifier hygiene of the browse screens: on the artist list no artist
/// and no album is recorded, and on the album list no album.
pub open spec fn ids_match_view(a: App) -> bool {
    (a.current_view == ViewType::Artists ==> a.current_artist_id is None
        && a.current_album_id is None) && (a.current_view == ViewType::Albums
        ==> a.current_album_id is None)
}

/// Key handling preserves identifier hygiene: however the session is
/// driven by key presses alone, returning to the artist list always leaves
/// both identifiers absent, and the album list never carries an album.
pub proof fn lemma_keys_preserve_id_hygiene(key: Key, a: App, b: App, r: Option<Action>)
    requires
        ids_match_view(a),
        key_transition(key, a, b, r),
    ensures
        ids_match_view(b),
{
}

/// Back-navigation is the inverse of drill-down: from the artist list
/// (no artist, no album recorded), drilling into an artist's albums and then
/// into an album's songs, one step back restores the album-list context and
/// a second step restores the original artist-list context, with both
/// identifiers absent again.
pub proof fn lemma_back_inverts_drill_down(c0: NavContext, artist_id: String, album_id: String)
    requires
        c0.view == ViewType::Artists,
        c0.artist_id is None,
        c0.album_id is None,
    ensures
        spec_back_nav(spec_drill_to_songs(spec_drill_to_albums(c0, artist_id), album_id))
            == spec_drill_to_albums(c0, artist_id),
        spec_back_nav(
            spec_back_nav(spec_drill_to_songs(spec_drill_to_albums(c0, artist_id), album_id)),
        ) == c0,
{
}

} // verus!
