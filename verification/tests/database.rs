//! Tests of the music store: sequential ids, upsert-by-name, duplicate
//! association rejection and the read operations.

use muzik_tui::database::{Database, DbError};
use muzik_tui::models::{
    Artist, NewAlbum, NewArtist, NewFile, NewGenre, NewSong, Song, SongAlbum, SongArtist,
    SongGenre,
};

fn setup_database() -> Database {
    Database::new()
}

fn new_song(title: &str) -> NewSong {
    NewSong {
        title: title.to_string(),
        youtube_id: None,
        thumbnail_url: None,
        file_id: None,
    }
}

fn song(id: i32, title: &str) -> Song {
    Song {
        id,
        title: title.to_string(),
        youtube_id: None,
        thumbnail_url: None,
        file_id: None,
    }
}

#[test]
fn test_database_get_all_songs() {
    let mut database = setup_database();
    let _insert1 = database.insert_song(new_song("Stellar Stellar")).unwrap();
    let _insert2 = database.insert_song(new_song("Crossing Field")).unwrap();
    let _insert3 = database.insert_song(new_song("Loli God Requiem")).unwrap();

    let songs = database.get_all_songs().unwrap();
    let songs_check = vec![
        song(1, "Stellar Stellar"),
        song(2, "Crossing Field"),
        song(3, "Loli God Requiem"),
    ];

    assert_eq!(songs, songs_check);
}

#[test]
fn test_database_get_all_artists_for_song() {
    let mut database = setup_database();

    let song_id = database.insert_song(new_song("Stellar Stellar")).unwrap();
    let artist1_id = database
        .insert_artist(NewArtist { name: "Hoshimachi Suisei".to_string() })
        .unwrap();
    let artist2_id = database
        .insert_artist(NewArtist { name: "Comet-chan".to_string() })
        .unwrap();
    database
        .insert_song_artist(SongArtist { song_id, artist_id: artist1_id })
        .unwrap();
    database
        .insert_song_artist(SongArtist { song_id, artist_id: artist2_id })
        .unwrap();

    let song = database.get_song_from_id(song_id).unwrap();
    let artists = database.get_all_artists_for_song(song).unwrap();
    assert_eq!(
        artists,
        vec![
            Artist { id: 1, name: "Hoshimachi Suisei".to_string() },
            Artist { name: "Comet-chan".to_string(), id: 2 }
        ]
    );
}

#[test]
fn test_database_artist_insert_conflict() {
    let mut database = setup_database();
    let insert1 = database.insert_artist(NewArtist { name: "Suisei".to_string() }).unwrap();
    let insert2 = database.insert_artist(NewArtist { name: "Suisei".to_string() }).unwrap();
    let insert3 = database.insert_artist(NewArtist { name: "LiSA".to_string() }).unwrap();
    assert_eq!(insert1, insert2);
    assert_eq!(insert3, 2);
}

#[test]
fn test_database_album_insert_conflict() {
    let mut database = setup_database();
    let insert1 = database
        .insert_album(NewAlbum { name: "Still Still Stellar".to_string() })
        .unwrap();
    let insert2 = database
        .insert_album(NewAlbum { name: "Still Still Stellar".to_string() })
        .unwrap();
    let insert3 = database
        .insert_album(NewAlbum { name: "Sword Art Online OSTs".to_string() })
        .unwrap();
    assert_eq!(insert1, insert2);
    assert_eq!(insert3, 2);
}

#[test]
fn test_database_genre_insert_conflict() {
    let mut database = setup_database();
    let insert1 = database.insert_genre(NewGenre { name: "Japanese Pop".to_string() }).unwrap();
    let insert2 = database.insert_genre(NewGenre { name: "Japanese Pop".to_string() }).unwrap();
    let insert3 = database.insert_genre(NewGenre { name: "Japanese Rock".to_string() }).unwrap();
    assert_eq!(insert1, insert2);
    assert_eq!(insert3, 2);
}

#[test]
fn test_database_song_artist_insert_conflict() {
    let mut database = setup_database();
    let song_id = database.insert_song(new_song("Stellar Stellar")).unwrap();
    let artist_id = database
        .insert_artist(NewArtist { name: "Hoshimachi Suisei".to_string() })
        .unwrap();

    database.insert_song_artist(SongArtist { song_id, artist_id }).unwrap();
    // this should return an error
    assert!(database.insert_song_artist(SongArtist { song_id, artist_id }).is_err());
}

#[test]
fn file_insert_is_upsert_by_path() {
    let mut database = setup_database();
    let first = database
        .insert_file(NewFile { relative_path: "a/b.opus".to_string() })
        .unwrap();
    let again = database
        .insert_file(NewFile { relative_path: "a/b.opus".to_string() })
        .unwrap();
    let other = database
        .insert_file(NewFile { relative_path: "c/d.opus".to_string() })
        .unwrap();
    assert_eq!(first, again);
    assert_eq!(other, 2);
}

#[test]
fn duplicate_song_album_and_genre_pairs_fail() {
    let mut database = setup_database();
    let song_id = database.insert_song(new_song("Stellar Stellar")).unwrap();
    let album_id = database
        .insert_album(NewAlbum { name: "Still Still Stellar".to_string() })
        .unwrap();
    let genre_id = database.insert_genre(NewGenre { name: "Japanese Pop".to_string() }).unwrap();

    database.insert_song_album(SongAlbum { song_id, album_id }).unwrap();
    assert_eq!(
        database.insert_song_album(SongAlbum { song_id, album_id }),
        Err(DbError::DuplicateEntry)
    );
    database.insert_song_genre(SongGenre { song_id, genre_id }).unwrap();
    assert_eq!(
        database.insert_song_genre(SongGenre { song_id, genre_id }),
        Err(DbError::DuplicateEntry)
    );
}

#[test]
fn missing_song_id_is_not_found() {
    let mut database = setup_database();
    assert_eq!(database.get_song_from_id(1), Err(DbError::NotFound));
    let song_id = database.insert_song(new_song("Stellar Stellar")).unwrap();
    assert_eq!(song_id, 1);
    assert_eq!(database.get_song_from_id(0), Err(DbError::NotFound));
    assert_eq!(database.get_song_from_id(2), Err(DbError::NotFound));
    assert_eq!(database.get_song_from_id(1).unwrap().title, "Stellar Stellar");
}
