use danavi::nav::{handle_key, Action, Key, SelectPlan};
use danavi::types::{Album, Artist, PlaybackSource, SearchResultItem, Song, ViewType};
use danavi::view::App;

fn song(id: &str, title: &str) -> Song {
    Song {
        id: id.to_string(),
        title: title.to_string(),
        album_id: None,
        artist: None,
        album: None,
        duration: None,
    }
}

fn artist(id: &str, name: &str) -> Artist {
    Artist { id: id.to_string(), name: name.to_string() }
}

fn album(id: &str, name: &str) -> Album {
    Album { id: id.to_string(), name: name.to_string(), artist_id: None }
}

#[test]
fn back_navigation_restores_ids() {
    let mut app = App::new();
    assert!(app.current_artist_id.is_none());
    assert!(app.current_album_id.is_none());

    app.apply_albums("ar1".to_string(), "The Artist", vec![album("al1", "The Album")], "");
    assert_eq!(app.current_view, ViewType::Albums);
    assert_eq!(app.current_artist_id.as_deref(), Some("ar1"));

    app.apply_songs("al1".to_string(), "The Album", vec![song("s1", "One")], "");
    assert_eq!(app.current_view, ViewType::Songs);
    assert_eq!(app.current_artist_id.as_deref(), Some("ar1"));
    assert_eq!(app.current_album_id.as_deref(), Some("al1"));

    app.go_back();
    assert_eq!(app.current_view, ViewType::Albums);
    assert_eq!(app.current_artist_id.as_deref(), Some("ar1"));
    assert!(app.current_album_id.is_none());

    app.go_back();
    assert_eq!(app.current_view, ViewType::Artists);
    assert!(app.current_artist_id.is_none());
    assert!(app.current_album_id.is_none());
    assert_eq!(app.current_base_content, "Artists");
}

#[test]
fn back_from_search_discards_results() {
    let mut app = App::new();
    app.begin_search();
    app.apply_search_results(
        vec![SearchResultItem::Album {
            id: "al".to_string(),
            name: "N".to_string(),
            artist: "A".to_string(),
            artist_id: "ar".to_string(),
        }],
        "",
    );
    assert_eq!(app.current_view, ViewType::Search);
    app.go_back();
    assert_eq!(app.current_view, ViewType::Artists);
    assert!(app.search_results.is_empty());
}

#[test]
fn selection_resets_to_zero_on_list_replacement() {
    let mut app = App::new();
    app.apply_artists(vec![artist("1", "A"), artist("2", "B")], "");
    app.next();
    assert_eq!(app.get_selected_index(), Some(1));
    app.apply_artists(vec![artist("3", "C")], "");
    assert_eq!(app.get_selected_index(), Some(0));
    app.apply_artists(Vec::new(), "");
    assert_eq!(app.get_selected_index(), None);
    app.set_items(vec!["x".to_string()]);
    assert_eq!(app.get_selected_index(), Some(0));
    app.set_items(Vec::new());
    assert_eq!(app.get_selected_index(), None);
}

#[test]
fn cursor_wraps_both_ways() {
    let mut app = App::new();
    app.apply_artists(vec![artist("1", "A"), artist("2", "B"), artist("3", "C")], "");
    assert_eq!(app.get_selected_index(), Some(0));
    app.previous();
    assert_eq!(app.get_selected_index(), Some(2));
    app.next();
    assert_eq!(app.get_selected_index(), Some(0));
    app.next();
    assert_eq!(app.get_selected_index(), Some(1));
}

#[test]
fn cursor_ignores_empty_lists() {
    let mut app = App::new();
    app.apply_artists(Vec::new(), "");
    app.next();
    assert_eq!(app.get_selected_index(), None);
    app.previous();
    assert_eq!(app.get_selected_index(), None);
}

#[test]
fn status_message_expires_after_its_timeout() {
    let mut app = App::new();
    app.show_message("hello".to_string(), 2000);
    assert_eq!(app.status_message.as_deref(), Some("hello"));
    app.expire_message(0);
    assert_eq!(app.status_message.as_deref(), Some("hello"));
    app.expire_message(1999);
    assert_eq!(app.status_message.as_deref(), Some("hello"));
    app.expire_message(2000);
    assert!(app.status_message.is_none());
    assert!(app.status_message_timeout.is_none());
}

#[test]
fn select_plan_drills_into_albums_and_songs() {
    let mut app = App::new();
    app.apply_artists(vec![artist("ar1", "A"), artist("ar2", "B")], "");
    app.next();
    match app.select_plan() {
        SelectPlan::LoadAlbums { artist_id } => assert_eq!(artist_id, "ar2"),
        _ => panic!("expected an album load"),
    }
    app.apply_albums("ar2".to_string(), "B", vec![album("al1", "Z")], "");
    match app.select_plan() {
        SelectPlan::LoadSongs { album_id } => assert_eq!(album_id, "al1"),
        _ => panic!("expected a song load"),
    }
}

#[test]
fn select_plan_plays_with_album_context() {
    let mut app = App::new();
    app.apply_songs(
        "al1".to_string(),
        "The Album",
        vec![song("s1", "One"), song("s2", "Two")],
        "",
    );
    app.next();
    match app.select_plan() {
        SelectPlan::Play { song, source } => {
            assert_eq!(song.title, "Two");
            match source {
                PlaybackSource::Album { album_songs, current_index } => {
                    assert_eq!(current_index, 1);
                    assert_eq!(album_songs.len(), 2);
                    assert_eq!(album_songs[0].title, "One");
                }
                _ => panic!("expected an album source"),
            }
        }
        _ => panic!("expected a play"),
    }
}

#[test]
fn select_plan_handles_search_hits() {
    let mut app = App::new();
    app.begin_search();
    app.apply_search_results(
        vec![
            SearchResultItem::Album {
                id: "al9".to_string(),
                name: "N".to_string(),
                artist: "A".to_string(),
                artist_id: "ar9".to_string(),
            },
            SearchResultItem::Song {
                id: "s9".to_string(),
                title: "T".to_string(),
                artist: "A".to_string(),
                album_id: "al9".to_string(),
                album: None,
                duration: Some(3),
            },
        ],
        "",
    );
    match app.select_plan() {
        SelectPlan::LoadSongsFromSearch { album_id, artist_id } => {
            assert_eq!(album_id, "al9");
            assert_eq!(artist_id, "ar9");
        }
        _ => panic!("expected a search drill-down"),
    }
    app.next();
    match app.select_plan() {
        SelectPlan::Play { song, source } => {
            assert_eq!(song.id, "s9");
            assert_eq!(song.album_id.as_deref(), Some("al9"));
            assert!(song.album.is_none());
            assert!(song.duration.is_none());
            assert!(matches!(source, PlaybackSource::Search));
        }
        _ => panic!("expected a play"),
    }
}

#[test]
fn select_plan_without_selection_does_nothing() {
    let mut app = App::new();
    app.apply_artists(Vec::new(), "");
    assert!(matches!(app.select_plan(), SelectPlan::Nothing));
}

#[test]
fn search_drill_down_records_both_ids() {
    let mut app = App::new();
    app.apply_songs_from_search(
        "ar9".to_string(),
        "al9".to_string(),
        "The Album",
        vec![song("s1", "One")],
        "",
    );
    assert_eq!(app.current_view, ViewType::Songs);
    assert_eq!(app.current_artist_id.as_deref(), Some("ar9"));
    assert_eq!(app.current_album_id.as_deref(), Some("al9"));
    assert_eq!(app.current_base_content, "Songs in The Album");
}

#[test]
fn titles_carry_names_and_flavor() {
    let mut app = App::new();
    app.apply_artists(vec![artist("1", "A")], " - made with tea");
    assert_eq!(app.current_base_content, "Artists - made with tea");
    app.apply_albums("1".to_string(), "The Artist", vec![album("2", "B")], "");
    assert_eq!(app.current_base_content, "Albums for The Artist");
    app.apply_songs("2".to_string(), "The Album", vec![song("3", "C")], "");
    assert_eq!(app.current_base_content, "Songs in The Album");
}

#[test]
fn typing_a_search_query() {
    let mut app = App::new();
    assert!(handle_key(Key::Char('/'), &mut app).is_none());
    assert!(app.in_search);
    assert!(handle_key(Key::Char('a'), &mut app).is_none());
    assert!(handle_key(Key::Char('b'), &mut app).is_none());
    assert!(handle_key(Key::Char('x'), &mut app).is_none());
    assert_eq!(app.search_string, "abx");
    assert!(handle_key(Key::Backspace, &mut app).is_none());
    assert_eq!(app.search_string, "ab");
    match handle_key(Key::Enter, &mut app) {
        Some(Action::Search) => {}
        _ => panic!("expected the search action"),
    }
    assert!(!app.in_search);
    assert_eq!(app.search_string, "ab");
}

#[test]
fn cancelling_search_discards_the_buffer() {
    let mut app = App::new();
    handle_key(Key::Char('i'), &mut app);
    handle_key(Key::Char('z'), &mut app);
    assert!(app.in_search);
    assert!(handle_key(Key::Esc, &mut app).is_none());
    assert!(!app.in_search);
    assert_eq!(app.search_string, "");
}

#[test]
fn quit_only_from_the_artist_list() {
    let mut app = App::new();
    match handle_key(Key::Char('q'), &mut app) {
        Some(Action::Quit) => {}
        _ => panic!("expected quit"),
    }
    app.apply_albums("1".to_string(), "A", vec![album("2", "B")], "");
    assert!(handle_key(Key::Esc, &mut app).is_none());
    assert_eq!(app.current_view, ViewType::Artists);
}

#[test]
fn help_overlay_intercepts_keys() {
    let mut app = App::new();
    assert!(handle_key(Key::Char('?'), &mut app).is_none());
    assert!(app.help_open);
    assert!(handle_key(Key::Char('n'), &mut app).is_none());
    assert!(app.help_open);
    assert!(handle_key(Key::Esc, &mut app).is_none());
    assert!(!app.help_open);
}

#[test]
fn key_actions_in_normal_mode() {
    let mut app = App::new();
    assert!(matches!(handle_key(Key::Enter, &mut app), Some(Action::Select)));
    assert!(matches!(handle_key(Key::Right, &mut app), Some(Action::Select)));
    assert!(matches!(handle_key(Key::Char('l'), &mut app), Some(Action::Select)));
    assert!(matches!(handle_key(Key::Char('a'), &mut app), Some(Action::AddToQueue)));
    assert!(matches!(handle_key(Key::Char('n'), &mut app), Some(Action::PlayNext)));
    assert!(matches!(handle_key(Key::Char('p'), &mut app), Some(Action::RestartQueue)));
    assert!(matches!(handle_key(Key::Char(' '), &mut app), Some(Action::TogglePause)));
    assert!(handle_key(Key::Char('z'), &mut app).is_none());
    assert!(handle_key(Key::Other, &mut app).is_none());
}

#[test]
fn queue_keys_edit_the_queue() {
    let mut app = App::new();
    app.queue.enqueue(song("1", "A"));
    app.queue.enqueue(song("2", "B"));
    assert!(handle_key(Key::Char('r'), &mut app).is_none());
    assert_eq!(app.queue.len(), 1);
    assert_eq!(app.status_message.as_deref(), Some("Removed from queue"));
    assert!(handle_key(Key::Char('c'), &mut app).is_none());
    assert_eq!(app.queue.len(), 0);
    assert_eq!(app.status_message.as_deref(), Some("Queue cleared"));
    app.clear_message();
    assert!(handle_key(Key::Char('r'), &mut app).is_none());
    assert!(handle_key(Key::Char('c'), &mut app).is_none());
    assert!(app.status_message.is_none());
}

#[test]
fn cursor_keys_move_the_selection() {
    let mut app = App::new();
    app.apply_artists(vec![artist("1", "A"), artist("2", "B")], "");
    assert!(handle_key(Key::Down, &mut app).is_none());
    assert_eq!(app.get_selected_index(), Some(1));
    assert!(handle_key(Key::Char('k'), &mut app).is_none());
    assert_eq!(app.get_selected_index(), Some(0));
    assert!(handle_key(Key::Up, &mut app).is_none());
    assert_eq!(app.get_selected_index(), Some(1));
    assert!(handle_key(Key::Char('j'), &mut app).is_none());
    assert_eq!(app.get_selected_index(), Some(0));
}

#[test]
fn adding_the_selected_song_to_the_queue() {
    let mut app = App::new();
    app.apply_songs(
        "al".to_string(),
        "The Album",
        vec![song("s1", "One"), song("s2", "Two")],
        "",
    );
    app.next();
    app.add_selected_to_queue();
    assert_eq!(app.queue.len(), 1);
    assert_eq!(app.queue.front().unwrap().title, "Two");
    assert_eq!(
        app.status_message.as_deref(),
        Some("Added to queue: Two (Queue: 1)")
    );
    app.add_selected_to_queue();
    assert_eq!(
        app.status_message.as_deref(),
        Some("Added to queue: Two (Queue: 2)")
    );
}

#[test]
fn adding_a_search_song_hit_to_the_queue() {
    let mut app = App::new();
    app.begin_search();
    app.apply_search_results(
        vec![
            SearchResultItem::Album {
                id: "al9".to_string(),
                name: "N".to_string(),
                artist: "A".to_string(),
                artist_id: "ar9".to_string(),
            },
            SearchResultItem::Song {
                id: "s9".to_string(),
                title: "T".to_string(),
                artist: "A".to_string(),
                album_id: "al9".to_string(),
                album: None,
                duration: None,
            },
        ],
        "",
    );
    app.add_selected_to_queue();
    assert_eq!(app.queue.len(), 0);
    app.next();
    app.add_selected_to_queue();
    assert_eq!(app.queue.len(), 1);
    assert_eq!(app.queue.front().unwrap().id, "s9");
    assert_eq!(app.queue.front().unwrap().album_id.as_deref(), Some("al9"));
}

#[test]
fn search_titles_show_query_and_count() {
    let mut app = App::new();
    handle_key(Key::Char('/'), &mut app);
    handle_key(Key::Char('a'), &mut app);
    handle_key(Key::Char('b'), &mut app);
    handle_key(Key::Char('c'), &mut app);
    handle_key(Key::Enter, &mut app);
    app.begin_search();
    assert_eq!(app.current_base_content, "Searching for \"abc\"...");
    app.apply_search_results(Vec::new(), "");
    assert_eq!(app.current_base_content, "Search: abc (0 results)");
}
