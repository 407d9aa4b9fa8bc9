//! The plain shapes of the server's responses, and how they become the
//! model's lists: artists are flattened out of their index buckets, albums
//! and songs are mapped row for row (each song learning its album's name),
//! and search results list the album hits first, then the song hits, in the
//! order received.

use vstd::prelude::*;
use vstd::string::StringExecFns;
use crate::types::{clone_opt_string, Album, Artist, SearchResultItem, Song};

verus! {

/// How a reply's status field is read: "ok" accepts the reply; anything
/// else is an error naming the server's message, or a generic one when the
/// reply carried none.
pub fn interpret_api_status(status: &str, error_message: Option<String>) -> (r: Result<
    (),
    String,
>)
    ensures
        status@ == "ok"@ ==> r is Ok,
        status@ != "ok"@ ==> (r matches Err(m) && m@ == "API error: "@ + (match error_message {
            Some(e) => e@,
            None => "Unknown error"@,
        })),
{
    if status.to_owned() == String::from_str("ok") {
        Ok(())
    } else {
        match error_message {
            Some(e) => Err(String::from_str("API error: ").concat(e.as_str())),
            None => Err(String::from_str("API error: ").concat("Unknown error")),
        }
    }
}

/// The envelope every server reply arrives in.
#[derive(Debug)]
pub struct SubsonicResponse<T> {
    pub subsonic_response: T,
}

#[derive(Debug)]
pub struct ArtistsResponse {
    pub status: String,
    pub artists: ArtistsData,
}

#[derive(Debug)]
pub struct ArtistsData {
    pub index: Vec<IndexEntry>,
}

/// One alphabetical bucket of the artist index.
#[derive(Debug)]
pub struct IndexEntry {
    pub artist: Vec<ArtistData>,
}

#[derive(Debug)]
pub struct ArtistData {
    pub id: String,
    pub name: String,
}

#[derive(Debug)]
pub struct ArtistResponse {
    pub status: String,
    pub artist: ArtistDetail,
}

#[derive(Debug)]
pub struct ArtistDetail {
    pub id: String,
    pub name: String,
    pub album: Vec<AlbumData>,
}

#[derive(Debug)]
pub struct AlbumData {
    pub id: String,
    pub name: String,
    pub artist_id: Option<String>,
}

#[derive(Debug)]
pub struct AlbumResponse {
    pub status: String,
    pub album: AlbumDetail,
}

#[derive(Debug)]
pub struct AlbumDetail {
    pub id: String,
    pub name: String,
    pub song: Vec<SongData>,
}

#[derive(Debug)]
pub struct SongData {
    pub id: String,
    pub title: String,
    pub album_id: Option<String>,
    pub artist: Option<String>,
    pub album: Option<String>,
    pub duration: Option<i64>,
}

#[derive(Debug)]
pub struct SearchResponse {
    pub status: String,
    pub search_result3: Option<SearchResult3>,
}

#[derive(Debug)]
pub struct SearchResult3 {
    pub album: Option<Vec<SearchAlbum>>,
    pub song: Option<Vec<SearchSong>>,
}

#[derive(Debug)]
pub struct SearchAlbum {
    pub id: String,
    pub name: String,
    pub artist: String,
    pub artist_id: String,
}

#[derive(Debug)]
pub struct SearchSong {
    pub id: String,
    pub title: String,
    pub artist: String,
    pub album_id: String,
    pub album: Option<String>,
    pub duration: Option<i64>,
}

/// The error shape a failing server reply carries.
#[derive(Debug)]
pub struct ErrorResponse {
    pub status: String,
    pub error: Option<ErrorDetail>,
}

#[derive(Debug)]
pub struct ErrorDetail {
    pub code: Option<i32>,
    pub message: Option<String>,
}

/// The model artist behind one index row.
pub open spec fn spec_artist(d: ArtistData) -> Artist {
    Artist { id: d.id, name: d.name }
}

/// The model album behind one album row.
pub open spec fn spec_album(d: AlbumData) -> Album {
    Album { id: d.id, name: d.name, artist_id: d.artist_id }
}

/// The model song behind one song row; the album's own name replaces
/// whatever the row carried.
pub open spec fn spec_song(d: SongData, album_name: String) -> Song {
    Song {
        id: d.id,
        title: d.title,
        album_id: d.album_id,
        artist: d.artist,
        album: Some(album_name),
        duration: d.duration,
    }
}

/// All artists of the index's buckets, in index order.
pub open spec fn spec_artists_of(entries: Seq<IndexEntry>) -> Seq<Artist>
    decreases entries.len(),
{
    if entries.len() == 0 {
        Seq::<Artist>::empty()
    } else {
        spec_artists_of(entries.drop_last()) + entries.last().artist@.map_values(
            |d: ArtistData| spec_artist(d),
        )
    }
}

/// Flattens the artist index into the artist list, keeping index order.
pub fn artists_from_response(r: &ArtistsResponse) -> (res: Vec<Artist>)
    ensures
        res@ == spec_artists_of(r.artists.index@),
{
    let mut res: Vec<Artist> = Vec::new();
    let entries = &r.artists.index;
    let n = entries.len();
    let mut i: usize = 0;
    while i < n
        invariant
            i <= n,
            n == entries@.len(),
            res@ == spec_artists_of(entries@.take(i as int)),
        decreases n - i,
    {
        let bucket = &entries[i].artist;
        let m = bucket.len();
        let mut j: usize = 0;
        while j < m
            invariant
                j <= m,
                i < n,
                n == entries@.len(),
                m == bucket@.len(),
                bucket@ == entries@[i as int].artist@,
                res@ == spec_artists_of(entries@.take(i as int)) + bucket@.take(
                    j as int,
                ).map_values(|d: ArtistData| spec_artist(d)),
            decreases m - j,
        {
            let a = Artist { id: bucket[j].id.clone(), name: bucket[j].name.clone() };
            res.push(a);
            proof {
                assert(bucket@.take(j + 1).map_values(|d: ArtistData| spec_artist(d))
                    =~= bucket@.take(j as int).map_values(|d: ArtistData| spec_artist(d)).push(
                    spec_artist(bucket@[j as int]),
                ));
            }
            j = j + 1;
        }
        proof {
            assert(entries@.take(i + 1).drop_last() =~= entries@.take(i as int));
            assert(entries@.take(i + 1).last() == entries@[i as int]);
            assert(bucket@.take(m as int) =~= bucket@);
        }
        i = i + 1;
    }
    proof {
        assert(entries@.take(n as int) =~= entries@);
    }
    res
}

/// Maps an artist's album rows into the album list, in order.
pub fn albums_from_response(r: &ArtistResponse) -> (res: Vec<Album>)
    ensures
        res@ == r.artist.album@.map_values(|d: AlbumData| spec_album(d)),
{
    let mut res: Vec<Album> = Vec::new();
    let rows = &r.artist.album;
    let n = rows.len();
    let mut i: usize = 0;
    while i < n
        invariant
            i <= n,
            n == rows@.len(),
            res@ == rows@.take(i as int).map_values(|d: AlbumData| spec_album(d)),
        decreases n - i,
    {
        let a = Album {
            id: rows[i].id.clone(),
            name: rows[i].name.clone(),
            artist_id: clone_opt_string(&rows[i].artist_id),
        };
        res.push(a);
        proof {
            assert(rows@.take(i + 1).map_values(|d: AlbumData| spec_album(d)) =~= rows@.take(
                i as int,
            ).map_values(|d: AlbumData| spec_album(d)).push(spec_album(rows@[i as int])));
        }
        i = i + 1;
    }
    proof {
        assert(rows@.take(n as int) =~= rows@);
    }
    res
}

/// Maps an album's song rows into the song list, in order, giving each song
/// the album's name.
pub fn songs_from_response(r: &AlbumResponse) -> (res: Vec<Song>)
    ensures
        res@ == r.album.song@.map_values(|d: SongData| spec_song(d, r.album.name)),
{
    let mut res: Vec<Song> = Vec::new();
    let rows = &r.album.song;
    let n = rows.len();
    let mut i: usize = 0;
    while i < n
        invariant
            i <= n,
            n == rows@.len(),
            res@ == rows@.take(i as int).map_values(|d: SongData| spec_song(d, r.album.name)),
        decreases n - i,
    {
        let s = Song {
            id: rows[i].id.clone(),
            title: rows[i].title.clone(),
            album_id: clone_opt_string(&rows[i].album_id),
            artist: clone_opt_string(&rows[i].artist),
            album: Some(r.album.name.clone()),
            duration: rows[i].duration,
        };
        res.push(s);
        proof {
            assert(rows@.take(i + 1).map_values(|d: SongData| spec_song(d, r.album.name))
                =~= rows@.take(i as int).map_values(|d: SongData| spec_song(d, r.album.name)).push(
                spec_song(rows@[i as int], r.album.name),
            ));
        }
        i = i + 1;
    }
    proof {
        assert(rows@.take(n as int) =~= rows@);
    }
    res
}

/// The search row behind one album hit.
pub open spec fn spec_album_hit(d: SearchAlbum) -> SearchResultItem {
    SearchResultItem::Album { id: d.id, name: d.name, artist: d.artist, artist_id: d.artist_id }
}

/// The search row behind one song hit.
pub open spec fn spec_song_hit(d: SearchSong) -> SearchResultItem {
    SearchResultItem::Song {
        id: d.id,
        title: d.title,
        artist: d.artist,
        album_id: d.album_id,
        album: d.album,
        duration: d.duration,
    }
}

/// The search result rows: all album hits first, then all song hits, each
/// group in the order received; absent groups contribute nothing.
pub open spec fn spec_search_items(r: SearchResponse) -> Seq<SearchResultItem> {
    match r.search_result3 {
        None => Seq::<SearchResultItem>::empty(),
        Some(sr) => (match sr.album {
            None => Seq::<SearchResultItem>::empty(),
            Some(v) => v@.map_values(|d: SearchAlbum| spec_album_hit(d)),
        }) + (match sr.song {
            None => Seq::<SearchResultItem>::empty(),
            Some(v) => v@.map_values(|d: SearchSong| spec_song_hit(d)),
        }),
    }
}

/// Builds the search result rows from a search reply.
pub fn search_items_from_response(r: &SearchResponse) -> (res: Vec<SearchResultItem>)
    ensures
        res@ == spec_search_items(*r),
{
    let mut res: Vec<SearchResultItem> = Vec::new();
    let sr = match &r.search_result3 {
        None => {
            assert(res@ =~= spec_search_items(*r));
            return res;
        },
        Some(sr) => sr,
    };
    match &sr.album {
        None => {},
        Some(rows) => {
            let n = rows.len();
            let mut i: usize = 0;
            while i < n
                invariant
                    i <= n,
                    n == rows@.len(),
                    res@ == rows@.take(i as int).map_values(|d: SearchAlbum| spec_album_hit(d)),
                decreases n - i,
            {
                let a = SearchResultItem::Album {
                    id: rows[i].id.clone(),
                    name: rows[i].name.clone(),
                    artist: rows[i].artist.clone(),
                    artist_id: rows[i].artist_id.clone(),
                };
                res.push(a);
                proof {
                    assert(rows@.take(i + 1).map_values(|d: SearchAlbum| spec_album_hit(d))
                        =~= rows@.take(i as int).map_values(
                        |d: SearchAlbum| spec_album_hit(d),
                    ).push(spec_album_hit(rows@[i as int])));
                }
                i = i + 1;
            }
            proof {
                assert(rows@.take(n as int) =~= rows@);
            }
        },
    }
    let ghost albums_part = res@;
    match &sr.song {
        None => {},
        Some(rows) => {
            let n = rows.len();
            let mut i: usize = 0;
            while i < n
                invariant
                    i <= n,
                    n == rows@.len(),
                    res@ == albums_part + rows@.take(i as int).map_values(
                        |d: SearchSong| spec_song_hit(d),
                    ),
                decreases n - i,
            {
                let s = SearchResultItem::Song {
                    id: rows[i].id.clone(),
                    title: rows[i].title.clone(),
                    artist: rows[i].artist.clone(),
                    album_id: rows[i].album_id.clone(),
                    album: clone_opt_string(&rows[i].album),
                    duration: rows[i].duration,
                };
                res.push(s);
                proof {
                    assert(rows@.take(i + 1).map_values(|d: SearchSong| spec_song_hit(d))
                        =~= rows@.take(i as int).map_values(|d: SearchSong| spec_song_hit(d)).push(
                        spec_song_hit(rows@[i as int])));
                }
                i = i + 1;
            }
            proof {
                assert(rows@.take(n as int) =~= rows@);
            }
        },
    }
    proof {
        assert(res@ =~= spec_search_items(*r));
    }
    res
}

} // verus!
