//! In-memory music store with the semantics the runtime relies on: ids are
//! assigned sequentially from one; artist, album, genre and file inserts are
//! upserts keyed by name (returning the existing id when the name is already
//! present); association inserts fail on a duplicate pair.

use vstd::prelude::*;

use crate::models::{
    Album, Artist, File, Genre, NewAlbum, NewArtist, NewFile, NewGenre, NewSong, Song, SongAlbum,
    SongArtist, SongGenre,
};

verus! {

/// Failure of a store operation.
#[derive(Clone, Copy, Debug, PartialEq, Eq, Structural)]
pub enum DbError {
    /// No row with the requested id exists.
    NotFound,
    /// The association pair is already present.
    DuplicateEntry,
}

/// Some row of the table carries this name.
pub open spec fn has_artist(a: Seq<Artist>, name: Seq<char>) -> bool {
    exists|i: int| 0 <= i < a.len() && #[trigger] a[i].name@ == name
}

pub open spec fn has_album(a: Seq<Album>, name: Seq<char>) -> bool {
    exists|i: int| 0 <= i < a.len() && #[trigger] a[i].name@ == name
}

pub open spec fn has_genre(a: Seq<Genre>, name: Seq<char>) -> bool {
    exists|i: int| 0 <= i < a.len() && #[trigger] a[i].name@ == name
}

pub open spec fn has_file(a: Seq<File>, path: Seq<char>) -> bool {
    exists|i: int| 0 <= i < a.len() && #[trigger] a[i].relative_path@ == path
}

/// Ids are the positions counted from one, and names never repeat.
pub open spec fn artists_wf(a: Seq<Artist>) -> bool {
    &&& forall|i: int| 0 <= i < a.len() ==> #[trigger] a[i].id as int == i + 1
    &&& forall|i: int, j: int| 0 <= i < j < a.len() ==> a[i].name@ != a[j].name@
}

pub open spec fn albums_wf(a: Seq<Album>) -> bool {
    &&& forall|i: int| 0 <= i < a.len() ==> #[trigger] a[i].id as int == i + 1
    &&& forall|i: int, j: int| 0 <= i < j < a.len() ==> a[i].name@ != a[j].name@
}

pub open spec fn genres_wf(a: Seq<Genre>) -> bool {
    &&& forall|i: int| 0 <= i < a.len() ==> #[trigger] a[i].id as int == i + 1
    &&& forall|i: int, j: int| 0 <= i < j < a.len() ==> a[i].name@ != a[j].name@
}

pub open spec fn files_wf(a: Seq<File>) -> bool {
    &&& forall|i: int| 0 <= i < a.len() ==> #[trigger] a[i].id as int == i + 1
    &&& forall|i: int, j: int| 0 <= i < j < a.len() ==> a[i].relative_path@ != a[j].relative_path@
}

pub open spec fn songs_wf(a: Seq<Song>) -> bool {
    forall|i: int| 0 <= i < a.len() ==> #[trigger] a[i].id as int == i + 1
}

/// No association pair repeats.
pub open spec fn song_artists_wf(a: Seq<SongArtist>) -> bool {
    forall|i: int, j: int| 0 <= i < j < a.len() ==> a[i] != a[j]
}

pub open spec fn song_albums_wf(a: Seq<SongAlbum>) -> bool {
    forall|i: int, j: int| 0 <= i < j < a.len() ==> a[i] != a[j]
}

pub open spec fn song_genres_wf(a: Seq<SongGenre>) -> bool {
    forall|i: int, j: int| 0 <= i < j < a.len() ==> a[i] != a[j]
}

/// What an upsert-by-name does to the artist table: when the name is
/// present, the table is unchanged and the existing id is returned;
/// otherwise a row with the next id is appended and its id returned.
pub open spec fn artist_upsert_ok(pre: Seq<Artist>, post: Seq<Artist>, name: Seq<char>, r: i32) -> bool {
    if has_artist(pre, name) {
        post == pre && exists|i: int|
            0 <= i < pre.len() && #[trigger] pre[i].name@ == name && pre[i].id == r
    } else {
        &&& post.len() == pre.len() + 1
        &&& post.take(pre.len() as int) == pre
        &&& post.last().name@ == name
        &&& post.last().id == r
        &&& r as int == pre.len() + 1
    }
}

pub open spec fn album_upsert_ok(pre: Seq<Album>, post: Seq<Album>, name: Seq<char>, r: i32) -> bool {
    if has_album(pre, name) {
        post == pre && exists|i: int|
            0 <= i < pre.len() && #[trigger] pre[i].name@ == name && pre[i].id == r
    } else {
        &&& post.len() == pre.len() + 1
        &&& post.take(pre.len() as int) == pre
        &&& post.last().name@ == name
        &&& post.last().id == r
        &&& r as int == pre.len() + 1
    }
}

pub open spec fn genre_upsert_ok(pre: Seq<Genre>, post: Seq<Genre>, name: Seq<char>, r: i32) -> bool {
    if has_genre(pre, name) {
        post == pre && exists|i: int|
            0 <= i < pre.len() && #[trigger] pre[i].name@ == name && pre[i].id == r
    } else {
        &&& post.len() == pre.len() + 1
        &&& post.take(pre.len() as int) == pre
        &&& post.last().name@ == name
        &&& post.last().id == r
        &&& r as int == pre.len() + 1
    }
}

pub open spec fn file_upsert_ok(pre: Seq<File>, post: Seq<File>, path: Seq<char>, r: i32) -> bool {
    if has_file(pre, path) {
        post == pre && exists|i: int|
            0 <= i < pre.len() && #[trigger] pre[i].relative_path@ == path && pre[i].id == r
    } else {
        &&& post.len() == pre.len() + 1
        &&& post.take(pre.len() as int) == pre
        &&& post.last().relative_path@ == path
        &&& post.last().id == r
        &&& r as int == pre.len() + 1
    }
}

/// The artists joined to a song: for every association row carrying the
/// song's id, in insertion order, the artist row its artist id points at.
pub open spec fn artists_for(pairs: Seq<SongArtist>, artists: Seq<Artist>, sid: i32) -> Seq<Artist>
    decreases pairs.len(),
{
    if pairs.len() == 0 {
        Seq::empty()
    } else {
        let init = artists_for(pairs.drop_last(), artists, sid);
        let p = pairs.last();
        if p.song_id == sid && 1 <= p.artist_id as int && p.artist_id as int <= artists.len() {
            init.push(artists[p.artist_id as int - 1])
        } else {
            init
        }
    }
}

/// The music store.
pub struct Database {
    pub songs: Vec<Song>,
    pub artists: Vec<Artist>,
    pub albums: Vec<Album>,
    pub genres: Vec<Genre>,
    pub files: Vec<File>,
    pub songs_artists: Vec<SongArtist>,
    pub songs_albums: Vec<SongAlbum>,
    pub songs_genres: Vec<SongGenre>,
}

impl Database {
    /// Every table keeps its shape: sequential ids, unique names or paths,
    /// no repeated association pair.
    pub open spec fn wf(self) -> bool {
        &&& songs_wf(self.songs@)
        &&& artists_wf(self.artists@)
        &&& albums_wf(self.albums@)
        &&& genres_wf(self.genres@)
        &&& files_wf(self.files@)
        &&& song_artists_wf(self.songs_artists@)
        &&& song_albums_wf(self.songs_albums@)
        &&& song_genres_wf(self.songs_genres@)
    }

    /// A fresh, empty store.
    pub fn new() -> (db: Database)
        ensures
            db.wf(),
            db.songs@.len() == 0,
            db.artists@.len() == 0,
            db.albums@.len() == 0,
            db.genres@.len() == 0,
            db.files@.len() == 0,
            db.songs_artists@.len() == 0,
            db.songs_albums@.len() == 0,
            db.songs_genres@.len() == 0,
    {
        Database {
            songs: Vec::new(),
            artists: Vec::new(),
            albums: Vec::new(),
            genres: Vec::new(),
            files: Vec::new(),
            songs_artists: Vec::new(),
            songs_albums: Vec::new(),
            songs_genres: Vec::new(),
        }
    }

    /// Insert a song unconditionally and return its freshly assigned id.
    pub fn insert_song(&mut self, new_song: NewSong) -> (r: Result<i32, DbError>)
        requires
            old(self).wf(),
            old(self).songs@.len() + 1 <= i32::MAX,
        ensures
            final(self).wf(),
            r matches Ok(id) && id as int == old(self).songs@.len() + 1,
            final(self).songs@ == old(self).songs@.push(
                (Song {
                    id: (old(self).songs@.len() + 1) as i32,
                    title: new_song.title,
                    youtube_id: new_song.youtube_id,
                    thumbnail_url: new_song.thumbnail_url,
                    file_id: new_song.file_id,
                }),
            ),
            final(self).artists == old(self).artists,
            final(self).albums == old(self).albums,
            final(self).genres == old(self).genres,
            final(self).files == old(self).files,
            final(self).songs_artists == old(self).songs_artists,
            final(self).songs_albums == old(self).songs_albums,
            final(self).songs_genres == old(self).songs_genres,
    {
        let id: i32 = (self.songs.len() + 1) as i32;
        self.songs.push(
            Song {
                id,
                title: new_song.title,
                youtube_id: new_song.youtube_id,
                thumbnail_url: new_song.thumbnail_url,
                file_id: new_song.file_id,
            },
        );
        Ok(id)
    }

    /// Insert an artist by name; if an entry with the same name exists, the
    /// id of the existing entry is returned and nothing changes.
    pub fn insert_artist(&mut self, new_artist: NewArtist) -> (r: Result<i32, DbError>)
        requires
            old(self).wf(),
            old(self).artists@.len() + 1 <= i32::MAX,
        ensures
            final(self).wf(),
            r matches Ok(id) && artist_upsert_ok(
                old(self).artists@,
                final(self).artists@,
                new_artist.name@,
                id,
            ),
            final(self).songs == old(self).songs,
            final(self).albums == old(self).albums,
            final(self).genres == old(self).genres,
            final(self).files == old(self).files,
            final(self).songs_artists == old(self).songs_artists,
            final(self).songs_albums == old(self).songs_albums,
            final(self).songs_genres == old(self).songs_genres,
    {
        let n = self.artists.len();
        let mut i: usize = 0;
        while i < n
            invariant
                old(self).wf(),
                *self == *old(self),
                n == self.artists@.len(),
                i <= n,
                forall|j: int| 0 <= j < i ==> #[trigger] self.artists@[j].name@ != new_artist.name@,
            decreases n - i,
        {
            if self.artists[i].name == new_artist.name {
                return Ok(self.artists[i].id);
            }
            i = i + 1;
        }
        let id: i32 = (self.artists.len() + 1) as i32;
        self.artists.push(Artist { id, name: new_artist.name });
        proof {
            assert(final(self).artists@.take(old(self).artists@.len() as int) =~= old(
                self,
            ).artists@);
        }
        Ok(id)
    }

    /// Insert an album by name; if an entry with the same name exists, the
    /// id of the existing entry is returned and nothing changes.
    pub fn insert_album(&mut self, new_album: NewAlbum) -> (r: Result<i32, DbError>)
        requires
            old(self).wf(),
            old(self).albums@.len() + 1 <= i32::MAX,
        ensures
            final(self).wf(),
            r matches Ok(id) && album_upsert_ok(
                old(self).albums@,
                final(self).albums@,
                new_album.name@,
                id,
            ),
            final(self).songs == old(self).songs,
            final(self).artists == old(self).artists,
            final(self).genres == old(self).genres,
            final(self).files == old(self).files,
            final(self).songs_artists == old(self).songs_artists,
            final(self).songs_albums == old(self).songs_albums,
            final(self).songs_genres == old(self).songs_genres,
    {
        let n = self.albums.len();
        let mut i: usize = 0;
        while i < n
            invariant
                old(self).wf(),
                *self == *old(self),
                n == self.albums@.len(),
                i <= n,
                forall|j: int| 0 <= j < i ==> #[trigger] self.albums@[j].name@ != new_album.name@,
            decreases n - i,
        {
            if self.albums[i].name == new_album.name {
                return Ok(self.albums[i].id);
            }
            i = i + 1;
        }
        let id: i32 = (self.albums.len() + 1) as i32;
        self.albums.push(Album { id, name: new_album.name });
        proof {
            assert(final(self).albums@.take(old(self).albums@.len() as int) =~= old(self).albums@);
        }
        Ok(id)
    }

    /// Insert a genre by name; if an entry with the same name exists, the
    /// id of the existing entry is returned and nothing changes.
    pub fn insert_genre(&mut self, new_genre: NewGenre) -> (r: Result<i32, DbError>)
        requires
            old(self).wf(),
            old(self).genres@.len() + 1 <= i32::MAX,
        ensures
            final(self).wf(),
            r matches Ok(id) && genre_upsert_ok(
                old(self).genres@,
                final(self).genres@,
                new_genre.name@,
                id,
            ),
            final(self).songs == old(self).songs,
            final(self).artists == old(self).artists,
            final(self).albums == old(self).albums,
            final(self).files == old(self).files,
            final(self).songs_artists == old(self).songs_artists,
            final(self).songs_albums == old(self).songs_albums,
            final(self).songs_genres == old(self).songs_genres,
    {
        let n = self.genres.len();
        let mut i: usize = 0;
        while i < n
            invariant
                old(self).wf(),
                *self == *old(self),
                n == self.genres@.len(),
                i <= n,
                forall|j: int| 0 <= j < i ==> #[trigger] self.genres@[j].name@ != new_genre.name@,
            decreases n - i,
        {
            if self.genres[i].name == new_genre.name {
                return Ok(self.genres[i].id);
            }
            i = i + 1;
        }
        let id: i32 = (self.genres.len() + 1) as i32;
        self.genres.push(Genre { id, name: new_genre.name });
        proof {
            assert(final(self).genres@.take(old(self).genres@.len() as int) =~= old(self).genres@);
        }
        Ok(id)
    }

    /// Insert a file by relative path; if an entry with the same path
    /// exists, the id of the existing entry is returned and nothing changes.
    pub fn insert_file(&mut self, new_file: NewFile) -> (r: Result<i32, DbError>)
        requires
            old(self).wf(),
            old(self).files@.len() + 1 <= i32::MAX,
        ensures
            final(self).wf(),
            r matches Ok(id) && file_upsert_ok(
                old(self).files@,
                final(self).files@,
                new_file.relative_path@,
                id,
            ),
            final(self).songs == old(self).songs,
            final(self).artists == old(self).artists,
            final(self).albums == old(self).albums,
            final(self).genres == old(self).genres,
            final(self).songs_artists == old(self).songs_artists,
            final(self).songs_albums == old(self).songs_albums,
            final(self).songs_genres == old(self).songs_genres,
    {
        let n = self.files.len();
        let mut i: usize = 0;
        while i < n
            invariant
                old(self).wf(),
                *self == *old(self),
                n == self.files@.len(),
                i <= n,
                forall|j: int|
                    0 <= j < i ==> #[trigger] self.files@[j].relative_path@
                        != new_file.relative_path@,
            decreases n - i,
        {
            if self.files[i].relative_path == new_file.relative_path {
                return Ok(self.files[i].id);
            }
            i = i + 1;
        }
        let id: i32 = (self.files.len() + 1) as i32;
        self.files.push(File { id, relative_path: new_file.relative_path });
        proof {
            assert(final(self).files@.take(old(self).files@.len() as int) =~= old(self).files@);
        }
        Ok(id)
    }

    /// Associate a song with an artist; fails if and only if the pair is
    /// already present, in which case nothing changes.
    pub fn insert_song_artist(&mut self, new_song_artist: SongArtist) -> (r: Result<(), DbError>)
        requires
            old(self).wf(),
        ensures
            final(self).wf(),
            old(self).songs_artists@.contains(new_song_artist) ==> r == Err::<(), DbError>(
                DbError::DuplicateEntry,
            ) && final(self).songs_artists == old(self).songs_artists,
            !old(self).songs_artists@.contains(new_song_artist) ==> r == Ok::<(), DbError>(())
                && final(self).songs_artists@ == old(self).songs_artists@.push(new_song_artist),
            final(self).songs == old(self).songs,
            final(self).artists == old(self).artists,
            final(self).albums == old(self).albums,
            final(self).genres == old(self).genres,
            final(self).files == old(self).files,
            final(self).songs_albums == old(self).songs_albums,
            final(self).songs_genres == old(self).songs_genres,
    {
        let n = self.songs_artists.len();
        let mut i: usize = 0;
        while i < n
            invariant
                old(self).wf(),
                *self == *old(self),
                n == self.songs_artists@.len(),
                i <= n,
                forall|j: int| 0 <= j < i ==> self.songs_artists@[j] != new_song_artist,
            decreases n - i,
        {
            if self.songs_artists[i] == new_song_artist {
                return Err(DbError::DuplicateEntry);
            }
            i = i + 1;
        }
        self.songs_artists.push(new_song_artist);
        Ok(())
    }

    /// Associate a song with an album; fails if and only if the pair is
    /// already present, in which case nothing changes.
    pub fn insert_song_album(&mut self, new_song_album: SongAlbum) -> (r: Result<(), DbError>)
        requires
            old(self).wf(),
        ensures
            final(self).wf(),
            old(self).songs_albums@.contains(new_song_album) ==> r == Err::<(), DbError>(
                DbError::DuplicateEntry,
            ) && final(self).songs_albums == old(self).songs_albums,
            !old(self).songs_albums@.contains(new_song_album) ==> r == Ok::<(), DbError>(())
                && final(self).songs_albums@ == old(self).songs_albums@.push(new_song_album),
            final(self).songs == old(self).songs,
            final(self).artists == old(self).artists,
            final(self).albums == old(self).albums,
            final(self).genres == old(self).genres,
            final(self).files == old(self).files,
            final(self).songs_artists == old(self).songs_artists,
            final(self).songs_genres == old(self).songs_genres,
    {
        let n = self.songs_albums.len();
        let mut i: usize = 0;
        while i < n
            invariant
                old(self).wf(),
                *self == *old(self),
                n == self.songs_albums@.len(),
                i <= n,
                forall|j: int| 0 <= j < i ==> self.songs_albums@[j] != new_song_album,
            decreases n - i,
        {
            if self.songs_albums[i] == new_song_album {
                return Err(DbError::DuplicateEntry);
            }
            i = i + 1;
        }
        self.songs_albums.push(new_song_album);
        Ok(())
    }

    /// Associate a song with a genre; fails if and only if the pair is
    /// already present, in which case nothing changes.
    pub fn insert_song_genre(&mut self, new_song_genre: SongGenre) -> (r: Result<(), DbError>)
        requires
            old(self).wf(),
        ensures
            final(self).wf(),
            old(self).songs_genres@.contains(new_song_genre) ==> r == Err::<(), DbError>(
                DbError::DuplicateEntry,
            ) && final(self).songs_genres == old(self).songs_genres,
            !old(self).songs_genres@.contains(new_song_genre) ==> r == Ok::<(), DbError>(())
                && final(self).songs_genres@ == old(self).songs_genres@.push(new_song_genre),
            final(self).songs == old(self).songs,
            final(self).artists == old(self).artists,
            final(self).albums == old(self).albums,
            final(self).genres == old(self).genres,
            final(self).files == old(self).files,
            final(self).songs_artists == old(self).songs_artists,
            final(self).songs_albums == old(self).songs_albums,
    {
        let n = self.songs_genres.len();
        let mut i: usize = 0;
        while i < n
            invariant
                old(self).wf(),
                *self == *old(self),
                n == self.songs_genres@.len(),
                i <= n,
                forall|j: int| 0 <= j < i ==> self.songs_genres@[j] != new_song_genre,
            decreases n - i,
        {
            if self.songs_genres[i] == new_song_genre {
                return Err(DbError::DuplicateEntry);
            }
            i = i + 1;
        }
        self.songs_genres.push(new_song_genre);
        Ok(())
    }

    /// The song with the given id, or `NotFound` if and only if no row
    /// carries it.
    pub fn get_song_from_id(&mut self, song_id: i32) -> (r: Result<Song, DbError>)
        requires
            old(self).wf(),
        ensures
            *final(self) == *old(self),
            1 <= song_id as int <= old(self).songs@.len() ==> r == Ok::<Song, DbError>(
                old(self).songs@[song_id as int - 1],
            ),
            !(1 <= song_id as int <= old(self).songs@.len()) ==> r == Err::<Song, DbError>(
                DbError::NotFound,
            ),
    {
        if song_id >= 1 && (song_id as usize) <= self.songs.len() {
            let idx: usize = (song_id as usize) - 1;
            Ok(self.songs[idx].clone())
        } else {
            Err(DbError::NotFound)
        }
    }

    /// Every stored song, in insertion (and therefore id) order.
    pub fn get_all_songs(&mut self) -> (r: Result<Vec<Song>, DbError>)
        requires
            old(self).wf(),
        ensures
            *final(self) == *old(self),
            r matches Ok(v) && v@ == old(self).songs@,
    {
        let v = self.songs.clone();
        proof {
            assert forall|i: int| 0 <= i < self.songs@.len() implies v@[i]
                == self.songs@[i] by {
                assert(cloned(self.songs@[i], v@[i]));
            }
            assert(v@ =~= self.songs@);
        }
        Ok(v)
    }

    /// The artists associated with the given song, in association-insertion
    /// order.
    pub fn get_all_artists_for_song(&mut self, song: Song) -> (r: Result<Vec<Artist>, DbError>)
        requires
            old(self).wf(),
        ensures
            *final(self) == *old(self),
            r matches Ok(v) && v@ == artists_for(
                old(self).songs_artists@,
                old(self).artists@,
                song.id,
            ),
    {
        let mut result: Vec<Artist> = Vec::new();
        let n = self.songs_artists.len();
        let mut i: usize = 0;
        while i < n
            invariant
                old(self).wf(),
                *self == *old(self),
                self.wf(),
                n == self.songs_artists@.len(),
                i <= n,
                result@ == artists_for(self.songs_artists@.take(i as int), self.artists@, song.id),
            decreases n - i,
        {
            let p = self.songs_artists[i];
            if p.song_id == song.id && p.artist_id >= 1 && (p.artist_id as usize)
                <= self.artists.len() {
                let idx: usize = (p.artist_id as usize) - 1;
                result.push(self.artists[idx].clone());
            }
            proof {
                assert(self.songs_artists@.take(i + 1).drop_last() =~= self.songs_artists@.take(
                    i as int,
                ));
                assert(self.songs_artists@.take(i + 1).last() == self.songs_artists@[i as int]);
            }
            i = i + 1;
        }
        proof {
            assert(self.songs_artists@.take(n as int) =~= self.songs_artists@);
        }
        Ok(result)
    }
}

/// Upsert-by-name is idempotent: inserting the same artist name twice
/// returns the same id both times and leaves the table unchanged the second
/// time.
pub proof fn lemma_artist_upsert_idempotent(
    a0: Seq<Artist>,
    a1: Seq<Artist>,
    a2: Seq<Artist>,
    name: Seq<char>,
    r1: i32,
    r2: i32,
)
    requires
        artists_wf(a0),
        artist_upsert_ok(a0, a1, name, r1),
        artist_upsert_ok(a1, a2, name, r2),
    ensures
        r2 == r1,
        a2 == a1,
{
    if has_artist(a0, name) {
        let i = choose|i: int| 0 <= i < a0.len() && #[trigger] a0[i].name@ == name && a0[i].id == r1;
        let j = choose|j: int| 0 <= j < a1.len() && #[trigger] a1[j].name@ == name && a1[j].id == r2;
        assert(i == j);
    } else {
        assert(a1.last().name@ == name);
        assert(has_artist(a1, name)) by {
            assert(a1[a1.len() - 1].name@ == name);
        }
        let j = choose|j: int| 0 <= j < a1.len() && #[trigger] a1[j].name@ == name && a1[j].id == r2;
        assert forall|k: int| 0 <= k < a0.len() implies a1[k].name@ != name by {
            assert(a1.take(a0.len() as int)[k] == a1[k]);
            assert(a0[k].name@ != name);
        }
        assert(j == a1.len() - 1);
    }
}

/// A distinct name not yet present is assigned a fresh id no existing row
/// carries.
pub proof fn lemma_artist_upsert_fresh(a0: Seq<Artist>, a1: Seq<Artist>, name: Seq<char>, r: i32)
    requires
        artists_wf(a0),
        !has_artist(a0, name),
        artist_upsert_ok(a0, a1, name, r),
    ensures
        forall|i: int| 0 <= i < a0.len() ==> a0[i].id != r,
{
}

/// Inserting the same song-artist pair twice fails on the second attempt:
/// after a successful insert the pair is present, and an insert of a present
/// pair returns `DuplicateEntry` and changes nothing.
pub proof fn lemma_duplicate_association_fails(
    p0: Seq<SongArtist>,
    p1: Seq<SongArtist>,
    pair: SongArtist,
)
    requires
        !p0.contains(pair),
        p1 == p0.push(pair),
    ensures
        p1.contains(pair),
{
    assert(p1[p1.len() - 1] == pair);
}

} // verus!
