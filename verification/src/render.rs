//! The text the interface shows: one row per entry of the active list
//! (search rows tagged by hit kind), and the one-line status bar with the
//! queue length, the current message or title, and a right-aligned help
//! hint.

use vstd::prelude::*;
use vstd::string::{StringExecFns, StrSliceExecFns};
use crate::text::{dec_str, spaces, u64_to_string};
use crate::types::{SearchResultItem, ViewType};
use crate::view::{spec_items_count, App};

verus! {

/// One rendered search row: album hits are tagged `[A]`, song hits `[S]`,
/// each followed by the hit's name and artist.
pub open spec fn spec_search_row(item: SearchResultItem) -> Seq<char> {
    match item {
        SearchResultItem::Album { name, artist, .. } => "[A] "@ + name@ + " - "@ + artist@,
        SearchResultItem::Song { title, artist, .. } => "[S] "@ + title@ + " - "@ + artist@,
    }
}

/// Renders one search row.
pub fn search_row(item: &SearchResultItem) -> (r: String)
    ensures
        r@ == spec_search_row(*item),
{
    match item {
        SearchResultItem::Album { name, artist, .. } => String::from_str("[A] ").concat(
            name.as_str(),
        ).concat(" - ").concat(artist.as_str()),
        SearchResultItem::Song { title, artist, .. } => String::from_str("[S] ").concat(
            title.as_str(),
        ).concat(" - ").concat(artist.as_str()),
    }
}

/// What row `i` of the active view shows: an artist's name, an album's
/// name, a song's title, or a tagged search row.
pub open spec fn spec_row(a: App, i: int) -> Seq<char> {
    match a.current_view {
        ViewType::Artists => a.artists@[i].name@,
        ViewType::Albums => a.albums@[i].name@,
        ViewType::Songs => a.songs@[i].title@,
        ViewType::Search => spec_search_row(a.search_results@[i]),
    }
}

/// Renders the active view's backing list, one row per entry, in order:
/// the song view never shows the album list, nor any other cross-wiring.
pub fn display_rows(app: &App) -> (rows: Vec<String>)
    ensures
        rows@.len() == spec_items_count(*app),
        forall|i: int| 0 <= i < rows@.len() ==> rows@[i]@ == spec_row(*app, i),
{
    let mut rows: Vec<String> = Vec::new();
    match app.current_view {
        ViewType::Artists => {
            let n = app.artists.len();
            let mut i: usize = 0;
            while i < n
                invariant
                    i <= n,
                    app.current_view == ViewType::Artists,
                    n == app.artists@.len(),
                    rows@.len() == i,
                    forall|j: int| 0 <= j < i ==> rows@[j]@ == spec_row(*app, j),
                decreases n - i,
            {
                rows.push(app.artists[i].name.clone());
                i = i + 1;
            }
        },
        ViewType::Albums => {
            let n = app.albums.len();
            let mut i: usize = 0;
            while i < n
                invariant
                    i <= n,
                    app.current_view == ViewType::Albums,
                    n == app.albums@.len(),
                    rows@.len() == i,
                    forall|j: int| 0 <= j < i ==> rows@[j]@ == spec_row(*app, j),
                decreases n - i,
            {
                rows.push(app.albums[i].name.clone());
                i = i + 1;
            }
        },
        ViewType::Songs => {
            let n = app.songs.len();
            let mut i: usize = 0;
            while i < n
                invariant
                    i <= n,
                    app.current_view == ViewType::Songs,
                    n == app.songs@.len(),
                    rows@.len() == i,
                    forall|j: int| 0 <= j < i ==> rows@[j]@ == spec_row(*app, j),
                decreases n - i,
            {
                rows.push(app.songs[i].title.clone());
                i = i + 1;
            }
        },
        ViewType::Search => {
            let n = app.search_results.len();
            let mut i: usize = 0;
            while i < n
                invariant
                    i <= n,
                    app.current_view == ViewType::Search,
                    n == app.search_results@.len(),
                    rows@.len() == i,
                    forall|j: int| 0 <= j < i ==> rows@[j]@ == spec_row(*app, j),
                decreases n - i,
            {
                rows.push(search_row(&app.search_results[i]));
                i = i + 1;
            }
        },
    }
    rows
}

/// The queue prefix of the status bar: the pending count when any track is
/// queued, nothing otherwise.
pub open spec fn spec_queue_info(a: App) -> Seq<char> {
    if a.queue@.len() > 0 {
        "Queue: "@ + dec_str(a.queue@.len()) + " "@
    } else {
        Seq::<char>::empty()
    }
}

/// The left text of the status bar: the queue prefix, then the transient
/// message if one is visible, else the view's title.
pub open spec fn spec_status_text(a: App) -> Seq<char> {
    spec_queue_info(a) + (match a.status_message {
        Some(m) => m@,
        None => a.current_base_content@,
    })
}

/// How many spaces separate the left text from the right-aligned help
/// hint: the leftover width, but always at least one.
pub open spec fn spec_status_gap(left: nat, right: nat, width: nat) -> nat {
    if left + right < width {
        (width - left - right) as nat
    } else {
        1
    }
}

/// A run of spaces, as a character sequence.
pub open spec fn char_spaces(n: nat) -> Seq<char> {
    Seq::new(n, |i: int| ' ')
}

/// Renders the status bar for a terminal `width` characters wide: the left
/// text, spaces, and the help hint.
pub fn status_line(app: &App, width: usize) -> (r: String)
    ensures
        r@ == spec_status_text(*app) + char_spaces(
            spec_status_gap(spec_status_text(*app).len(), "press ? for help"@.len(), width as nat),
        ) + "press ? for help"@,
{
    let mut left: String = if app.queue.len() > 0 {
        let n_str = u64_to_string(app.queue.len() as u64);
        String::from_str("Queue: ").concat(n_str.as_str()).concat(" ")
    } else {
        String::new()
    };
    match &app.status_message {
        Some(m) => {
            left.append(m.as_str());
        },
        None => {
            left.append(app.current_base_content.as_str());
        },
    }
    let help_text = "press ? for help";
    let left_width = left.as_str().unicode_len();
    let right_width = help_text.unicode_len();
    let gap: usize = if left_width < width && right_width < width - left_width {
        width - left_width - right_width
    } else {
        1
    };
    let pad = spaces(gap);
    let r = left.concat(pad.as_str()).concat(help_text);
    proof {
        assert(left@ == spec_status_text(*app));
        assert(pad@ =~= char_spaces(gap as nat));
        assert(gap as nat == spec_status_gap(
            spec_status_text(*app).len(),
            "press ? for help"@.len(),
            width as nat,
        ));
    }
    r
}

} // verus!
