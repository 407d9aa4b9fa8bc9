//! The view model: which screen is shown, the backing lists, the selection
//! cursor, the transient status message, and the playback queue and source
//! owned by the session.

use vstd::prelude::*;
use crate::queue::Queue;
use crate::types::{Album, Artist, PlaybackSource, SearchResultItem, Song, ViewType};

verus! {

/// The whole browsing session's state.
#[derive(Debug)]
pub struct App {
    pub current_view: ViewType,
    pub artists: Vec<Artist>,
    pub albums: Vec<Album>,
    pub songs: Vec<Song>,
    pub search_results: Vec<SearchResultItem>,
    /// The selection cursor of the rendered list; `None` when nothing is
    /// selectable.
    pub selected_index: Option<usize>,
    pub current_artist_id: Option<String>,
    pub current_album_id: Option<String>,
    pub queue: Queue,
    pub status_message: Option<String>,
    /// How long the status message stays visible, in milliseconds.
    pub status_message_timeout: Option<u64>,
    pub search_string: String,
    pub in_search: bool,
    pub help_open: bool,
    pub current_base_content: String,
    pub current_playback_source: Option<PlaybackSource>,
}

/// How many rows the active view's backing list has.
pub open spec fn spec_items_count(app: App) -> nat {
    match app.current_view {
        ViewType::Artists => app.artists@.len(),
        ViewType::Albums => app.albums@.len(),
        ViewType::Songs => app.songs@.len(),
        ViewType::Search => app.search_results@.len(),
    }
}

/// The cursor after a list replacement: row 0, or none for an empty list.
pub open spec fn spec_reset_cursor(n: nat) -> Option<usize> {
    if n > 0 {
        Some(0usize)
    } else {
        None
    }
}

/// The cursor after moving down one row, wrapping at the end of a list of
/// `n` rows.
pub open spec fn spec_wrap_next(sel: Option<usize>, n: nat) -> Option<usize> {
    if n == 0 {
        sel
    } else {
        match sel {
            Some(i) => if i as nat >= (n - 1) as nat {
                Some(0usize)
            } else {
                Some((i + 1) as usize)
            },
            None => Some(0usize),
        }
    }
}

/// The cursor after moving up one row, wrapping at the top of a list of
/// `n` rows.
pub open spec fn spec_wrap_previous(sel: Option<usize>, n: nat) -> Option<usize> {
    if n == 0 {
        sel
    } else {
        match sel {
            Some(i) => if i == 0 {
                Some(((n - 1) as nat) as usize)
            } else {
                Some((i - 1) as usize)
            },
            None => Some(0usize),
        }
    }
}

/// The state after a status message is shown.
pub open spec fn spec_show_message(app: App, message: String, timeout: u64) -> App {
    App { status_message: Some(message), status_message_timeout: Some(timeout), ..app }
}

/// The state after the status message is cleared.
pub open spec fn spec_clear_message(app: App) -> App {
    App { status_message: None::<String>, status_message_timeout: None::<u64>, ..app }
}

/// The state after one expiry check: the message disappears exactly when the
/// elapsed time has reached its timeout.
pub open spec fn spec_expire_message(app: App, elapsed_ms: u64) -> App {
    match app.status_message_timeout {
        Some(t) => if elapsed_ms >= t {
            spec_clear_message(app)
        } else {
            app
        },
        None => app,
    }
}

impl App {
    /// A fresh session: the artist view, empty lists, an empty queue, no
    /// message, nothing playing.
    pub fn new() -> (app: App)
        ensures
            app.current_view == ViewType::Artists,
            app.artists@ == Seq::<Artist>::empty(),
            app.albums@ == Seq::<Album>::empty(),
            app.songs@ == Seq::<Song>::empty(),
            app.search_results@ == Seq::<SearchResultItem>::empty(),
            app.selected_index == Some(0usize),
            app.current_artist_id is None,
            app.current_album_id is None,
            app.queue@ == Seq::<Song>::empty(),
            app.status_message is None,
            app.status_message_timeout is None,
            app.search_string@ == Seq::<char>::empty(),
            !app.in_search,
            !app.help_open,
            app.current_base_content@ == "Artists"@,
            app.current_playback_source is None,
    {
        App {
            current_view: ViewType::Artists,
            artists: Vec::new(),
            albums: Vec::new(),
            songs: Vec::new(),
            search_results: Vec::new(),
            selected_index: Some(0),
            current_artist_id: None,
            current_album_id: None,
            queue: Queue::new(),
            status_message: None,
            status_message_timeout: None,
            search_string: String::new(),
            in_search: false,
            help_open: false,
            current_base_content: "Artists".to_owned(),
            current_playback_source: None,
        }
    }

    /// How many rows the active view's backing list has.
    pub fn items_count(&self) -> (n: usize)
        ensures
            n == spec_items_count(*self),
    {
        match self.current_view {
            ViewType::Artists => self.artists.len(),
            ViewType::Albums => self.albums.len(),
            ViewType::Songs => self.songs.len(),
            ViewType::Search => self.search_results.len(),
        }
    }

    /// Replaces the rendered rows; the selection cursor always resets to the
    /// first row, or to none when the new list is empty.
    pub fn set_items(&mut self, items: Vec<String>)
        ensures
            *final(self) == (App {
                selected_index: spec_reset_cursor(items@.len()),
                ..*old(self)
            }),
    {
        if items.is_empty() {
            self.selected_index = None;
        } else {
            self.selected_index = Some(0);
        }
    }

    /// Moves the selection cursor down one row, wrapping at the end.
    pub fn next(&mut self)
        ensures
            *final(self) == (App {
                selected_index: spec_wrap_next(
                    old(self).selected_index,
                    spec_items_count(*old(self)),
                ),
                ..*old(self)
            }),
    {
        let items_count = self.items_count();
        if items_count == 0 {
            return ;
        }
        let i: usize = match self.selected_index {
            Some(i) => if i >= items_count - 1 {
                0
            } else {
                i + 1
            },
            None => 0,
        };
        self.selected_index = Some(i);
    }

    /// Moves the selection cursor up one row, wrapping at the top.
    pub fn previous(&mut self)
        ensures
            *final(self) == (App {
                selected_index: spec_wrap_previous(
                    old(self).selected_index,
                    spec_items_count(*old(self)),
                ),
                ..*old(self)
            }),
    {
        let items_count = self.items_count();
        if items_count == 0 {
            return ;
        }
        let i: usize = match self.selected_index {
            Some(i) => if i == 0 {
                items_count - 1
            } else {
                i - 1
            },
            None => 0,
        };
        self.selected_index = Some(i);
    }

    /// Where the selection cursor stands.
    pub fn get_selected_index(&self) -> (r: Option<usize>)
        ensures
            r == self.selected_index,
    {
        self.selected_index
    }

    /// Shows a transient status message that stays for `timeout`
    /// milliseconds.
    pub fn show_message(&mut self, message: String, timeout: u64)
        ensures
            *final(self) == spec_show_message(*old(self), message, timeout),
    {
        self.status_message = Some(message);
        self.status_message_timeout = Some(timeout);
    }

    /// Clears the status message.
    pub fn clear_message(&mut self)
        ensures
            *final(self) == spec_clear_message(*old(self)),
    {
        self.status_message = None;
        self.status_message_timeout = None;
    }

    /// One expiry check of the status message: clears it once `elapsed_ms`
    /// milliseconds have passed since it was shown, and leaves it visible
    /// before that.
    pub fn expire_message(&mut self, elapsed_ms: u64)
        ensures
            *final(self) == spec_expire_message(*old(self), elapsed_ms),
    {
        match self.status_message_timeout {
            Some(t) => {
                if elapsed_ms >= t {
                    self.clear_message();
                }
            },
            None => {},
        }
    }
}

/// A status message shown with timeout `t` is visible immediately, is still
/// visible at every check strictly before `t` milliseconds have elapsed, and
/// is gone at the first check at or after `t` milliseconds.
pub proof fn lemma_status_message_lifetime(app: App, message: String, t: u64, elapsed_ms: u64)
    ensures
        spec_show_message(app, message, t).status_message == Some(message),
        elapsed_ms < t ==> spec_expire_message(spec_show_message(app, message, t), elapsed_ms)
            == spec_show_message(app, message, t),
        elapsed_ms >= t ==> spec_expire_message(
            spec_show_message(app, message, t),
            elapsed_ms,
        ).status_message is None,
{
}

} // verus!
