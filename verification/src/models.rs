//! Row types of the music store: songs, artists, albums, genres, files and
//! the many-to-many association rows linking songs to the rest.

use vstd::prelude::*;

verus! {

#[derive(Debug, PartialEq, Eq)]
pub struct Song {
    pub id: i32,
    pub title: String,
    pub youtube_id: Option<String>,
    pub thumbnail_url: Option<String>,
    pub file_id: Option<i32>,
}

impl Clone for Song {
    fn clone(&self) -> (r: Self)
        ensures
            r == *self,
    {
        Song {
            id: self.id,
            title: self.title.clone(),
            youtube_id: self.youtube_id.clone(),
            thumbnail_url: self.thumbnail_url.clone(),
            file_id: self.file_id,
        }
    }
}

/// A song not yet stored; the store assigns the id.
#[derive(Debug, PartialEq, Eq)]
pub struct NewSong {
    pub title: String,
    pub youtube_id: Option<String>,
    pub thumbnail_url: Option<String>,
    pub file_id: Option<i32>,
}

#[derive(Debug, PartialEq, Eq)]
pub struct Artist {
    pub id: i32,
    pub name: String,
}

impl Clone for Artist {
    fn clone(&self) -> (r: Self)
        ensures
            r == *self,
    {
        Artist { id: self.id, name: self.name.clone() }
    }
}

#[derive(Debug, PartialEq, Eq)]
pub struct NewArtist {
    pub name: String,
}

#[derive(Debug, PartialEq, Eq)]
pub struct Album {
    pub id: i32,
    pub name: String,
}

#[derive(Debug, PartialEq, Eq)]
pub struct NewAlbum {
    pub name: String,
}

#[derive(Debug, PartialEq, Eq)]
pub struct Genre {
    pub id: i32,
    pub name: String,
}

#[derive(Debug, PartialEq, Eq)]
pub struct NewGenre {
    pub name: String,
}

#[derive(Debug, PartialEq, Eq)]
pub struct File {
    pub id: i32,
    pub relative_path: String,
}

#[derive(Debug, PartialEq, Eq)]
pub struct NewFile {
    pub relative_path: String,
}

#[derive(Clone, Copy, Debug, PartialEq, Eq, Structural)]
pub struct SongArtist {
    pub song_id: i32,
    pub artist_id: i32,
}

#[derive(Clone, Copy, Debug, PartialEq, Eq, Structural)]
pub struct SongAlbum {
    pub song_id: i32,
    pub album_id: i32,
}

#[derive(Clone, Copy, Debug, PartialEq, Eq, Structural)]
pub struct SongGenre {
    pub song_id: i32,
    pub genre_id: i32,
}

} // verus!
