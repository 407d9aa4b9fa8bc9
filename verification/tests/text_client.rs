use danavi::api::{
    albums_from_response, artists_from_response, interpret_api_status, search_items_from_response,
    songs_from_response,
    AlbumData, AlbumDetail, AlbumResponse, ArtistData, ArtistDetail, ArtistResponse, ArtistsData,
    ArtistsResponse, IndexEntry, SearchAlbum, SearchResponse, SearchResult3, SearchSong, SongData,
};
use danavi::bus::{bus_song_of, clamp_volume, session_song_of, PlaybackStatus};
use danavi::client::{
    generate_salt, generate_token, get_stream_url, normalize_base_url, stream_url_with,
    auth_query_pairs,
};
use danavi::config::{config_needs_edit, get_default_config, migrate_config};
use danavi::egg::get_random_easter_egg;
use danavi::render::{display_rows, search_row, status_line};
use danavi::text::{spaces, u64_to_string};
use danavi::types::{default_true, SearchResultItem, Song, ViewType};
use danavi::view::App;

#[test]
fn decimal_rendering_is_exact() {
    assert_eq!(u64_to_string(0), "0");
    assert_eq!(u64_to_string(7), "7");
    assert_eq!(u64_to_string(42), "42");
    assert_eq!(u64_to_string(1234567890), "1234567890");
}

#[test]
fn spaces_have_the_right_length() {
    assert_eq!(spaces(0), "");
    assert_eq!(spaces(4), "    ");
}

#[test]
fn search_rows_are_tagged_in_order() {
    let mut app = App::new();
    app.begin_search();
    app.apply_search_results(
        vec![
            SearchResultItem::Album {
                id: "al".to_string(),
                name: "Nightfall".to_string(),
                artist: "Band".to_string(),
                artist_id: "ar".to_string(),
            },
            SearchResultItem::Song {
                id: "s".to_string(),
                title: "Moonrise".to_string(),
                artist: "Band".to_string(),
                album_id: "al".to_string(),
                album: None,
                duration: None,
            },
        ],
        "",
    );
    assert_eq!(app.current_view, ViewType::Search);
    let rows = display_rows(&app);
    assert_eq!(rows, vec!["[A] Nightfall - Band", "[S] Moonrise - Band"]);
}

#[test]
fn display_rows_follow_the_active_view() {
    let mut app = App::new();
    app.apply_songs(
        "al".to_string(),
        "The Album",
        vec![
            Song {
                id: "1".to_string(),
                title: "One".to_string(),
                album_id: None,
                artist: None,
                album: None,
                duration: None,
            },
            Song {
                id: "2".to_string(),
                title: "Two".to_string(),
                album_id: None,
                artist: None,
                album: None,
                duration: None,
            },
        ],
        "",
    );
    assert_eq!(display_rows(&app), vec!["One", "Two"]);
}

#[test]
fn search_row_renders_one_hit() {
    let row = search_row(&SearchResultItem::Album {
        id: "x".to_string(),
        name: "N".to_string(),
        artist: "A".to_string(),
        artist_id: "y".to_string(),
    });
    assert_eq!(row, "[A] N - A");
}

#[test]
fn status_line_pads_between_text_and_hint() {
    let mut app = App::new();
    app.queue.enqueue(Song {
        id: "1".to_string(),
        title: "T".to_string(),
        album_id: None,
        artist: None,
        album: None,
        duration: None,
    });
    app.queue.enqueue(Song {
        id: "2".to_string(),
        title: "U".to_string(),
        album_id: None,
        artist: None,
        album: None,
        duration: None,
    });
    // Left text "Queue: 2 Artists" is 16 characters; the hint is 16 more.
    let line = status_line(&app, 40);
    assert_eq!(line, "Queue: 2 Artists        press ? for help");
    // When nothing fits, a single space still separates the two.
    let tight = status_line(&app, 10);
    assert_eq!(tight, "Queue: 2 Artists press ? for help");
}

#[test]
fn status_line_prefers_the_message() {
    let mut app = App::new();
    app.show_message("Paused".to_string(), 1500);
    let line = status_line(&app, 23);
    assert_eq!(line, "Paused press ? for help");
}

#[test]
fn token_is_the_md5_of_password_and_salt() {
    // The digest of "abc" is a fixed, well-known value.
    assert_eq!(generate_token("a", "bc"), "900150983cd24fb0d6963f7d28e17f72");
    assert_eq!(generate_token("", ""), "d41d8cd98f00b204e9800998ecf8427e");
}

#[test]
fn salts_are_eight_alphanumerics() {
    for _ in 0..20 {
        let salt = generate_salt();
        assert_eq!(salt.chars().count(), 8);
        assert!(salt.chars().all(|c| c.is_ascii_alphanumeric()));
    }
}

#[test]
fn stream_url_is_exact_for_a_given_salt() {
    let url = stream_url_with("http://h", "u1", "a", "42", "bc");
    assert_eq!(
        url,
        "http://h/rest/stream?id=42&u=u1&t=900150983cd24fb0d6963f7d28e17f72&s=bc&v=1.16.1&c=danavi&f=mp3"
    );
}

#[test]
fn stream_url_carries_a_fresh_salt_and_its_token() {
    let url = get_stream_url("http://h", "u1", "pw", "42");
    assert!(url.starts_with("http://h/rest/stream?id=42&u=u1&t="));
    assert!(url.ends_with("&v=1.16.1&c=danavi&f=mp3"));
    let token = url.split("&t=").nth(1).unwrap().split('&').next().unwrap();
    let salt = url.split("&s=").nth(1).unwrap().split('&').next().unwrap();
    assert_eq!(salt.len(), 8);
    assert_eq!(token, generate_token("pw", salt));
}

#[test]
fn auth_pairs_authenticate_the_caller() {
    let pairs = auth_query_pairs("me", "pw");
    assert_eq!(pairs.len(), 6);
    assert_eq!(pairs[0], ("u".to_string(), "me".to_string()));
    assert_eq!(pairs[1].0, "t");
    assert_eq!(pairs[2].0, "s");
    assert_eq!(pairs[3], ("v".to_string(), "1.16.1".to_string()));
    assert_eq!(pairs[4], ("c".to_string(), "danavi".to_string()));
    assert_eq!(pairs[5], ("f".to_string(), "json".to_string()));
    let salt = &pairs[2].1;
    assert_eq!(salt.len(), 8);
    assert_eq!(pairs[1].1, generate_token("pw", salt));
}

#[test]
fn base_url_loses_trailing_slashes() {
    assert_eq!(normalize_base_url("http://x/"), "http://x");
    assert_eq!(normalize_base_url("http://x///"), "http://x");
    assert_eq!(normalize_base_url("http://x"), "http://x");
    assert_eq!(normalize_base_url(""), "");
    assert_eq!(normalize_base_url("///"), "");
}

#[test]
fn default_config_and_edit_check() {
    assert!(default_true());
    let d = get_default_config();
    assert_eq!(d.base_url, "http://localhost:4533");
    assert_eq!(d.username, "");
    assert_eq!(d.password, "");
    assert!(d.show_easter_eggs);
    assert!(config_needs_edit(&d));
    let mut edited = get_default_config();
    edited.username = "me".to_string();
    assert!(!config_needs_edit(&edited));
}

#[test]
fn migration_fills_absent_fields_with_defaults() {
    let c = migrate_config(None, None, None, None);
    assert_eq!(c.base_url, "http://localhost:4533");
    assert_eq!(c.username, "");
    assert_eq!(c.password, "");
    assert!(c.show_easter_eggs);
    let c = migrate_config(
        Some("http://srv".to_string()),
        Some("me".to_string()),
        Some("pw".to_string()),
        Some(false),
    );
    assert_eq!(c.base_url, "http://srv");
    assert_eq!(c.username, "me");
    assert_eq!(c.password, "pw");
    assert!(!c.show_easter_eggs);
}

#[test]
fn flavor_suffix_is_off_or_known() {
    assert_eq!(get_random_easter_egg(false), "");
    let known = [
        " - made with coffee",
        " - made with tea",
        " - made with something",
        " - made with cars",
        " - made with dry wall",
        " - made with chocolate milk",
    ];
    for _ in 0..50 {
        let egg = get_random_easter_egg(true);
        assert!(egg.is_empty() || known.contains(&egg.as_str()));
    }
}

#[test]
fn playback_status_names() {
    assert_eq!(PlaybackStatus::Playing.as_str(), "Playing");
    assert_eq!(PlaybackStatus::Paused.as_str(), "Paused");
    assert_eq!(PlaybackStatus::Stopped.as_str(), "Stopped");
}

#[test]
fn bus_song_conversions() {
    let s = Song {
        id: "1".to_string(),
        title: "T".to_string(),
        album_id: Some("al".to_string()),
        artist: Some("A".to_string()),
        album: Some("Al".to_string()),
        duration: Some(180),
    };
    let b = bus_song_of(&s);
    assert_eq!(b.id, "1");
    assert_eq!(b.title, "T");
    assert_eq!(b.artist.as_deref(), Some("A"));
    assert_eq!(b.album.as_deref(), Some("Al"));
    assert_eq!(b.duration, Some(180));
    let back = session_song_of(&b);
    assert_eq!(back.id, "1");
    assert!(back.album_id.is_none());
}

#[test]
fn volume_clamp_bounds() {
    assert_eq!(clamp_volume(-1), 0);
    assert_eq!(clamp_volume(0), 0);
    assert_eq!(clamp_volume(1000), 1000);
    assert_eq!(clamp_volume(1001), 1000);
}

#[test]
fn artists_flatten_out_of_their_buckets() {
    let r = ArtistsResponse {
        status: "ok".to_string(),
        artists: ArtistsData {
            index: vec![
                IndexEntry {
                    artist: vec![
                        ArtistData { id: "1".to_string(), name: "Abba".to_string() },
                        ArtistData { id: "2".to_string(), name: "Ace".to_string() },
                    ],
                },
                IndexEntry {
                    artist: vec![ArtistData { id: "3".to_string(), name: "Bjork".to_string() }],
                },
            ],
        },
    };
    let artists = artists_from_response(&r);
    let names: Vec<&str> = artists.iter().map(|a| a.name.as_str()).collect();
    assert_eq!(names, vec!["Abba", "Ace", "Bjork"]);
    assert_eq!(artists[2].id, "3");
}

#[test]
fn albums_map_row_for_row() {
    let r = ArtistResponse {
        status: "ok".to_string(),
        artist: ArtistDetail {
            id: "ar".to_string(),
            name: "A".to_string(),
            album: vec![
                AlbumData { id: "1".to_string(), name: "First".to_string(), artist_id: None },
                AlbumData {
                    id: "2".to_string(),
                    name: "Second".to_string(),
                    artist_id: Some("ar".to_string()),
                },
            ],
        },
    };
    let albums = albums_from_response(&r);
    assert_eq!(albums.len(), 2);
    assert_eq!(albums[0].name, "First");
    assert_eq!(albums[1].artist_id.as_deref(), Some("ar"));
}

#[test]
fn songs_learn_their_album_name() {
    let r = AlbumResponse {
        status: "ok".to_string(),
        album: AlbumDetail {
            id: "al".to_string(),
            name: "The Album".to_string(),
            song: vec![SongData {
                id: "s1".to_string(),
                title: "One".to_string(),
                album_id: Some("al".to_string()),
                artist: Some("A".to_string()),
                album: None,
                duration: Some(10),
            }],
        },
    };
    let songs = songs_from_response(&r);
    assert_eq!(songs.len(), 1);
    assert_eq!(songs[0].album.as_deref(), Some("The Album"));
    assert_eq!(songs[0].duration, Some(10));
}

#[test]
fn api_status_interpretation() {
    assert!(interpret_api_status("ok", None).is_ok());
    assert!(interpret_api_status("ok", Some("ignored".to_string())).is_ok());
    assert_eq!(
        interpret_api_status("failed", Some("Wrong username or password.".to_string())),
        Err("API error: Wrong username or password.".to_string())
    );
    assert_eq!(
        interpret_api_status("failed", None),
        Err("API error: Unknown error".to_string())
    );
}

#[test]
fn search_items_list_albums_before_songs() {
    let r = SearchResponse {
        status: "ok".to_string(),
        search_result3: Some(SearchResult3 {
            album: Some(vec![SearchAlbum {
                id: "al".to_string(),
                name: "N".to_string(),
                artist: "A".to_string(),
                artist_id: "ar".to_string(),
            }]),
            song: Some(vec![SearchSong {
                id: "s".to_string(),
                title: "T".to_string(),
                artist: "A".to_string(),
                album_id: "al".to_string(),
                album: None,
                duration: None,
            }]),
        }),
    };
    let items = search_items_from_response(&r);
    assert_eq!(items.len(), 2);
    assert!(matches!(&items[0], SearchResultItem::Album { .. }));
    assert!(matches!(&items[1], SearchResultItem::Song { .. }));
    let empty = SearchResponse { status: "ok".to_string(), search_result3: None };
    assert!(search_items_from_response(&empty).is_empty());
}
