//! The catalog store: CRUD and query operations over songs and albums.
//! Every operation holds the store exclusively for its whole duration —
//! in particular `create_song`'s duplicate check and insert form one
//! critical section — and the mutating album/song-deletion operations
//! also come in moderation-guarded form.

use vstd::prelude::*;
use vstd::string::StringExecFns;
use crate::auth::{
    check_is_moderator, denied_ok, spec_is_moderator, Caller, DenialReply, GuardVerdict,
};
use crate::db;
use crate::errors::CatalogError;
use crate::model::{
    album_names, album_views, has_album_ci, has_album_id, has_song_id, has_title_ci, in_album,
    lemma_filter_shrinks_iff, lemma_filter_subset, lemma_filter_take_step, name_has_prefix,
    names_with_prefix, remove_albums_ci, remove_song_by_id, song_views, songs_in_album, store_wf,
    string_views, survives_album_delete, survives_song_delete, AlbumRecord, AlbumView, Song,
    SongView, StoreModel,
};
use crate::text::{eq_ci, str_eq_ci, str_has_prefix};

verus! {

/// The fixed album choices chat commands offer.
#[derive(Clone, Copy, Debug, PartialEq, Eq, Structural)]
pub enum Album {
    SinglesBSides,
    LiveSongs,
    Covers,
}

/// The album name each choice stands for.
pub open spec fn album_choice_name(a: Album) -> Seq<char> {
    match a {
        Album::SinglesBSides => "Singles/B-Sides"@,
        Album::LiveSongs => "Live Songs"@,
        Album::Covers => "Covers"@,
    }
}

impl Album {
    /// The album name this choice stands for.
    pub fn name(&self) -> (r: String)
        ensures
            r@ == album_choice_name(*self),
    {
        match self {
            Album::SinglesBSides => String::from_str("Singles/B-Sides"),
            Album::LiveSongs => String::from_str("Live Songs"),
            Album::Covers => String::from_str("Covers"),
        }
    }
}

/// How a song creation resolved: a new row under a fresh id, or no
/// insertion because a case-insensitively equal title is already
/// stored (a normal outcome, not a failure).
#[derive(Clone, Copy, Debug, PartialEq, Eq, Structural)]
pub enum SongCreation {
    Created(i64),
    DuplicateSong,
}

/// Contract of `create_album`: a new row under the next never-used id,
/// appended unconditionally — album names are not checked for
/// duplicates — or a storage failure that changed nothing.
pub open spec fn create_album_post(
    pre: StoreModel,
    post: StoreModel,
    name: Seq<char>,
    r: Result<i64, CatalogError>,
) -> bool {
    match r {
        Ok(id) => {
            &&& id as int == pre.album_high + 1
            &&& post == (StoreModel {
                albums: pre.albums.push((AlbumView { id: id as int, name })),
                album_high: id as int,
                ..pre
            })
        },
        Err(e) => e == CatalogError::Storage && post == pre,
    }
}

/// Contract of `delete_album`: every case-insensitive name match is
/// removed, and the boolean tells whether there was any; or a storage
/// failure that changed nothing. Absence is no error.
pub open spec fn delete_album_post(
    pre: StoreModel,
    post: StoreModel,
    name: Seq<char>,
    r: Result<bool, CatalogError>,
) -> bool {
    match r {
        Ok(removed) => {
            &&& post == (StoreModel { albums: remove_albums_ci(pre.albums, name), ..pre })
            &&& removed == has_album_ci(pre.albums, name)
        },
        Err(e) => e == CatalogError::Storage && post == pre,
    }
}

/// Contract of `create_song`: a new row under the next never-used id —
/// unless a case-insensitively equal title is already stored, in which
/// case nothing is inserted and the duplicate outcome is returned; a
/// storage failure changes nothing.
pub open spec fn create_song_post(
    pre: StoreModel,
    post: StoreModel,
    title: Seq<char>,
    album: Seq<char>,
    r: Result<SongCreation, CatalogError>,
) -> bool {
    match r {
        Ok(SongCreation::Created(id)) => {
            &&& !has_title_ci(pre.songs, title)
            &&& id as int == pre.song_high + 1
            &&& post == (StoreModel {
                songs: pre.songs.push((SongView { id: id as int, title, album })),
                song_high: id as int,
                ..pre
            })
        },
        Ok(SongCreation::DuplicateSong) => has_title_ci(pre.songs, title) && post == pre,
        Err(e) => e == CatalogError::Storage && post == pre,
    }
}

/// Contract of `delete_song`: the row with this id is removed, and the
/// boolean tells whether it existed; or a storage failure that changed
/// nothing. Absence is no error.
pub open spec fn delete_song_post(
    pre: StoreModel,
    post: StoreModel,
    id: int,
    r: Result<bool, CatalogError>,
) -> bool {
    match r {
        Ok(removed) => {
            &&& post == (StoreModel { songs: remove_song_by_id(pre.songs, id), ..pre })
            &&& removed == has_song_id(pre.songs, id)
        },
        Err(e) => e == CatalogError::Storage && post == pre,
    }
}

/// Whether any of these rows' titles equals `title` case-insensitively
/// — the duplicate check `create_song` runs inside its critical
/// section.
pub fn songs_contain_title_ci(rows: &Vec<Song>, title: &String) -> (r: bool)
    ensures
        r == has_title_ci(song_views(rows@), title@),
{
    let n = rows.len();
    let mut i: usize = 0;
    while i < n
        invariant
            0 <= i <= n,
            n == rows@.len(),
            forall|j: int|
                0 <= j < i ==> !eq_ci((#[trigger] song_views(rows@)[j]).title, title@),
        decreases n - i,
    {
        if str_eq_ci(rows[i].title.as_str(), title.as_str()) {
            proof {
                assert(song_views(rows@)[i as int] == rows@[i as int]@);
                assert(eq_ci(song_views(rows@)[i as int].title, title@));
            }
            return true;
        }
        proof {
            assert(song_views(rows@)[i as int] == rows@[i as int]@);
        }
        i += 1;
    }
    false
}

/// Whether every row id lies in `[1, high]` — the part of the store's
/// well-formedness that `Catalog::open` checks of a database file
/// before trusting it.
fn song_ids_in_range(rows: &Vec<Song>, high: i64) -> (b: bool)
    ensures
        b == (forall|i: int|
            0 <= i < song_views(rows@).len() ==> 1 <= (#[trigger] song_views(rows@)[i]).id
                <= high as int),
{
    let n = rows.len();
    let mut i: usize = 0;
    while i < n
        invariant
            0 <= i <= n,
            n == rows@.len(),
            forall|j: int|
                0 <= j < i ==> 1 <= (#[trigger] song_views(rows@)[j]).id <= high as int,
        decreases n - i,
    {
        proof {
            assert(song_views(rows@)[i as int] == rows@[i as int]@);
        }
        if rows[i].id < 1 || rows[i].id > high {
            return false;
        }
        i += 1;
    }
    true
}

/// As `song_ids_in_range`, for album rows.
fn album_ids_in_range(rows: &Vec<AlbumRecord>, high: i64) -> (b: bool)
    ensures
        b == (forall|i: int|
            0 <= i < album_views(rows@).len() ==> 1 <= (#[trigger] album_views(rows@)[i]).id
                <= high as int),
{
    let n = rows.len();
    let mut i: usize = 0;
    while i < n
        invariant
            0 <= i <= n,
            n == rows@.len(),
            forall|j: int|
                0 <= j < i ==> 1 <= (#[trigger] album_views(rows@)[j]).id <= high as int,
        decreases n - i,
    {
        proof {
            assert(album_views(rows@)[i as int] == rows@[i as int]@);
        }
        if rows[i].id < 1 || rows[i].id > high {
            return false;
        }
        i += 1;
    }
    true
}

/// The catalog store. It exclusively owns the embedded database
/// connection; no other component holds a reference to storage.
pub struct Catalog {
    conn: rusqlite::Connection,
}

impl Catalog {
    /// The store's contents: both tables and their id high-water marks.
    pub closed spec fn model(&self) -> StoreModel {
        db::store_model(self.conn)
    }

    /// The stored songs, in ascending id order.
    pub open spec fn songs(&self) -> Seq<SongView> {
        self.model().songs
    }

    /// The stored albums, in ascending id order.
    pub open spec fn albums(&self) -> Seq<AlbumView> {
        self.model().albums
    }

    /// Constructors establish this and every operation preserves it:
    /// stored ids are positive and never above the high-water marks.
    pub open spec fn wf(&self) -> bool {
        store_wf(self.model())
    }

    /// Opens a fresh in-memory catalog: empty tables, no id ever used.
    pub fn open_in_memory() -> (r: Result<Catalog, CatalogError>)
        ensures
            match r {
                Ok(cat) => cat.wf() && cat.model() == (StoreModel {
                    songs: Seq::<SongView>::empty(),
                    albums: Seq::<AlbumView>::empty(),
                    song_high: 0,
                    album_high: 0,
                }),
                Err(e) => e == CatalogError::Storage,
            },
    {
        match db::open_memory_store() {
            Ok(conn) => Ok(Catalog { conn }),
            Err(_) => Err(CatalogError::Storage),
        }
    }

    /// Opens the catalog database at `path`, creating its tables if
    /// they are absent, and checks what the file already held: every
    /// stored id must lie within its table's id high-water mark. A
    /// file that fails the check — one some other tool wrote — is
    /// refused as a storage failure rather than trusted.
    pub fn open(path: &String) -> (r: Result<Catalog, CatalogError>)
        ensures
            match r {
                Ok(cat) => cat.wf(),
                Err(e) => e == CatalogError::Storage,
            },
    {
        let conn = match db::open_file_store(path) {
            Ok(conn) => conn,
            Err(_) => {
                return Err(CatalogError::Storage);
            },
        };
        let song_high = match db::read_song_id_high(&conn) {
            Ok(h) => h,
            Err(_) => {
                return Err(CatalogError::Storage);
            },
        };
        let album_high = match db::read_album_id_high(&conn) {
            Ok(h) => h,
            Err(_) => {
                return Err(CatalogError::Storage);
            },
        };
        if song_high < 0 || album_high < 0 {
            return Err(CatalogError::Storage);
        }
        let songs = match db::select_song_rows(&conn) {
            Ok(rows) => rows,
            Err(_) => {
                return Err(CatalogError::Storage);
            },
        };
        let albums = match db::select_album_rows(&conn) {
            Ok(rows) => rows,
            Err(_) => {
                return Err(CatalogError::Storage);
            },
        };
        if !song_ids_in_range(&songs, song_high) || !album_ids_in_range(&albums, album_high) {
            return Err(CatalogError::Storage);
        }
        Ok(Catalog { conn })
    }

    /// Inserts a new album row unconditionally and returns its
    /// store-assigned id, which no earlier album row ever carried.
    pub fn create_album(&mut self, name: &String) -> (r: Result<i64, CatalogError>)
        requires
            old(self).wf(),
        ensures
            final(self).wf(),
            create_album_post(old(self).model(), final(self).model(), name@, r),
            match r {
                Ok(id) => !has_album_id(old(self).albums(), id as int),
                Err(_) => true,
            },
    {
        match db::insert_album_row(&mut self.conn, name) {
            Ok(id) => {
                proof {
                    let pre = old(self).model();
                    let post = self.model();
                    assert(post.albums =~= pre.albums.push(
                        (AlbumView { id: id as int, name: name@ }),
                    ));
                    assert(post =~= (StoreModel {
                        albums: pre.albums.push((AlbumView { id: id as int, name: name@ })),
                        album_high: id as int,
                        ..pre
                    }));
                    assert forall|i: int|
                        0 <= i < post.albums.len() implies 1 <= (#[trigger] post.albums[i]).id
                        <= post.album_high by {
                        if i < pre.albums.len() {
                            assert(post.albums[i] == pre.albums[i]);
                        }
                    }
                }
                Ok(id)
            },
            Err(_) => Err(CatalogError::Storage),
        }
    }

    /// Deletes every album whose name matches `name` case-insensitively
    /// and reports whether at least one row was removed.
    pub fn delete_album(&mut self, name: &String) -> (r: Result<bool, CatalogError>)
        requires
            old(self).wf(),
        ensures
            final(self).wf(),
            delete_album_post(old(self).model(), final(self).model(), name@, r),
    {
        match db::delete_album_rows_ci(&mut self.conn, name) {
            Ok(n) => {
                proof {
                    let pre = old(self).model();
                    let post = self.model();
                    lemma_filter_shrinks_iff(pre.albums, survives_album_delete(name@));
                    lemma_filter_subset(pre.albums, survives_album_delete(name@));
                    assert(post =~= (StoreModel {
                        albums: remove_albums_ci(pre.albums, name@),
                        ..pre
                    }));
                    assert forall|i: int|
                        0 <= i < post.albums.len() implies 1 <= (#[trigger] post.albums[i]).id
                        <= post.album_high by {
                        assert(pre.albums.contains(post.albums[i]));
                        let j = choose|j: int|
                            0 <= j < pre.albums.len() && pre.albums[j] == post.albums[i];
                        assert(1 <= pre.albums[j].id <= pre.album_high);
                    }
                }
                Ok(n > 0)
            },
            Err(_) => Err(CatalogError::Storage),
        }
    }

    /// Returns all albums in storage order.
    pub fn list_albums(&self) -> (r: Result<Vec<AlbumRecord>, CatalogError>)
        ensures
            match r {
                Ok(v) => album_views(v@) == self.albums(),
                Err(e) => e == CatalogError::Storage,
            },
    {
        match db::select_album_rows(&self.conn) {
            Ok(v) => Ok(v),
            Err(_) => Err(CatalogError::Storage),
        }
    }

    /// Creates a song unless a case-insensitively equal title already
    /// exists. The duplicate check and the insert run as one critical
    /// section: the store cannot change between them. A created song's
    /// id was never carried by any earlier row.
    pub fn create_song(&mut self, title: &String, album: &String) -> (r: Result<
        SongCreation,
        CatalogError,
    >)
        requires
            old(self).wf(),
        ensures
            final(self).wf(),
            create_song_post(old(self).model(), final(self).model(), title@, album@, r),
            match r {
                Ok(SongCreation::Created(id)) => !has_song_id(old(self).songs(), id as int),
                _ => true,
            },
    {
        let rows = match db::select_song_rows(&self.conn) {
            Ok(rows) => rows,
            Err(_) => {
                return Err(CatalogError::Storage);
            },
        };
        if songs_contain_title_ci(&rows, title) {
            return Ok(SongCreation::DuplicateSong);
        }
        match db::insert_song_row(&mut self.conn, title, album) {
            Ok(id) => {
                proof {
                    let pre = old(self).model();
                    let post = self.model();
                    assert(post =~= (StoreModel {
                        songs: pre.songs.push((SongView { id: id as int, title: title@, album: album@ })),
                        song_high: id as int,
                        ..pre
                    }));
                    assert forall|i: int|
                        0 <= i < post.songs.len() implies 1 <= (#[trigger] post.songs[i]).id
                        <= post.song_high by {
                        if i < pre.songs.len() {
                            assert(post.songs[i] == pre.songs[i]);
                        }
                    }
                }
                Ok(SongCreation::Created(id))
            },
            Err(_) => Err(CatalogError::Storage),
        }
    }

    /// Deletes the song with exactly this id and reports whether it
    /// existed.
    pub fn delete_song(&mut self, id: i64) -> (r: Result<bool, CatalogError>)
        requires
            old(self).wf(),
        ensures
            final(self).wf(),
            delete_song_post(old(self).model(), final(self).model(), id as int, r),
    {
        match db::delete_song_row(&mut self.conn, id) {
            Ok(n) => {
                proof {
                    let pre = old(self).model();
                    let post = self.model();
                    lemma_filter_shrinks_iff(pre.songs, survives_song_delete(id as int));
                    lemma_filter_subset(pre.songs, survives_song_delete(id as int));
                    assert(post =~= (StoreModel {
                        songs: remove_song_by_id(pre.songs, id as int),
                        ..pre
                    }));
                    assert forall|i: int|
                        0 <= i < post.songs.len() implies 1 <= (#[trigger] post.songs[i]).id
                        <= post.song_high by {
                        assert(pre.songs.contains(post.songs[i]));
                        let j = choose|j: int|
                            0 <= j < pre.songs.len() && pre.songs[j] == post.songs[i];
                        assert(1 <= pre.songs[j].id <= pre.song_high);
                    }
                }
                Ok(n > 0)
            },
            Err(_) => Err(CatalogError::Storage),
        }
    }

    /// Returns all songs, or exactly those filed under the given album
    /// text — equality there is case-sensitive, unlike the
    /// case-insensitive matching deletion and the duplicate check use.
    pub fn list_songs(&self, album_filter: Option<&String>) -> (r: Result<Vec<Song>, CatalogError>)
        ensures
            match r {
                Ok(v) => match album_filter {
                    None => song_views(v@) == self.songs(),
                    Some(a) => song_views(v@) == songs_in_album(self.songs(), a@),
                },
                Err(e) => e == CatalogError::Storage,
            },
    {
        let rows = match db::select_song_rows(&self.conn) {
            Ok(rows) => rows,
            Err(_) => {
                return Err(CatalogError::Storage);
            },
        };
        match album_filter {
            None => Ok(rows),
            Some(a) => Ok(filter_songs_by_album(rows, a)),
        }
    }

    /// Returns up to `count` songs drawn at random without replacement
    /// from the (optionally album-filtered) catalog. `count` is
    /// clamped to [1, 25] whatever the caller asked, to bound query
    /// cost; fewer rows come back only when fewer exist, and every row
    /// matches the filter when one is given.
    pub fn sample_songs(&self, album_filter: Option<&String>, count: u32) -> (r: Result<
        Vec<Song>,
        CatalogError,
    >)
        ensures
            match r {
                Ok(v) => {
                    let base = match album_filter {
                        None => self.songs(),
                        Some(a) => songs_in_album(self.songs(), a@),
                    };
                    &&& v@.len() == (if clamp_count(count) <= base.len() as int {
                        clamp_count(count)
                    } else {
                        base.len() as int
                    })
                    &&& forall|i: int|
                        0 <= i < v@.len() ==> base.contains(#[trigger] song_views(v@)[i])
                    &&& forall|i: int, j: int|
                        #![trigger song_views(v@)[i], song_views(v@)[j]]
                        0 <= i < j < v@.len() ==> song_views(v@)[i].id != song_views(v@)[j].id
                },
                Err(e) => e == CatalogError::Storage,
            },
    {
        let limit: u32 = if count < 1 {
            1
        } else if count > 25 {
            25
        } else {
            count
        };
        let picked = match album_filter {
            None => db::sample_song_rows(&self.conn, limit),
            Some(a) => db::sample_album_song_rows(&self.conn, a, limit),
        };
        match picked {
            Ok(v) => Ok(v),
            Err(_) => Err(CatalogError::Storage),
        }
    }

    /// Returns the album names that start with `prefix` (case-
    /// sensitive), in storage order; no match means an empty result,
    /// not an error.
    pub fn search_album_names(&self, prefix: &String) -> (r: Result<Vec<String>, CatalogError>)
        ensures
            match r {
                Ok(v) => string_views(v@) == names_with_prefix(self.albums(), prefix@),
                Err(e) => e == CatalogError::Storage,
            },
    {
        let rows = match db::select_album_rows(&self.conn) {
            Ok(rows) => rows,
            Err(_) => {
                return Err(CatalogError::Storage);
            },
        };
        let n = rows.len();
        let mut out: Vec<String> = Vec::new();
        let mut i: usize = 0;
        while i < n
            invariant
                0 <= i <= n,
                n == rows@.len(),
                string_views(out@) == album_names(album_views(rows@)).take(i as int).filter(
                    name_has_prefix(prefix@),
                ),
            decreases n - i,
        {
            proof {
                lemma_filter_take_step(
                    album_names(album_views(rows@)),
                    name_has_prefix(prefix@),
                    i as int,
                );
                assert(album_names(album_views(rows@))[i as int] == rows@[i as int].name@);
            }
            let ghost prev = out@;
            if str_has_prefix(prefix.as_str(), rows[i].name.as_str()) {
                out.push(rows[i].name.clone());
                proof {
                    assert(string_views(out@) =~= string_views(prev).push(rows@[i as int].name@));
                }
            }
            i += 1;
        }
        proof {
            assert(album_names(album_views(rows@)).take(n as int) =~= album_names(
                album_views(rows@),
            ));
        }
        Ok(out)
    }

    /// `create_album` behind the authorization check: it runs only for
    /// a caller holding the moderator role; any other caller leaves
    /// the store untouched and gets the one ephemeral denial reply.
    pub fn create_album_guarded(
        &mut self,
        caller: &Caller,
        mod_role: u64,
        name: &String,
    ) -> (r: Guarded<Result<i64, CatalogError>>)
        requires
            old(self).wf(),
        ensures
            final(self).wf(),
            match r {
                Guarded::Denied(d) => denied_ok(*caller, mod_role, d) && final(self).model()
                    == old(self).model(),
                Guarded::Done(res) => spec_is_moderator(*caller, mod_role) && create_album_post(
                    old(self).model(),
                    final(self).model(),
                    name@,
                    res,
                ),
            },
    {
        match check_is_moderator(caller, mod_role) {
            GuardVerdict::Allow => Guarded::Done(self.create_album(name)),
            GuardVerdict::Deny(d) => Guarded::Denied(d),
        }
    }

    /// `delete_album` behind the authorization check.
    pub fn delete_album_guarded(
        &mut self,
        caller: &Caller,
        mod_role: u64,
        name: &String,
    ) -> (r: Guarded<Result<bool, CatalogError>>)
        requires
            old(self).wf(),
        ensures
            final(self).wf(),
            match r {
                Guarded::Denied(d) => denied_ok(*caller, mod_role, d) && final(self).model()
                    == old(self).model(),
                Guarded::Done(res) => spec_is_moderator(*caller, mod_role) && delete_album_post(
                    old(self).model(),
                    final(self).model(),
                    name@,
                    res,
                ),
            },
    {
        match check_is_moderator(caller, mod_role) {
            GuardVerdict::Allow => Guarded::Done(self.delete_album(name)),
            GuardVerdict::Deny(d) => Guarded::Denied(d),
        }
    }

    /// `list_albums` behind the authorization check.
    pub fn list_albums_guarded(&self, caller: &Caller, mod_role: u64) -> (r: Guarded<
        Result<Vec<AlbumRecord>, CatalogError>,
    >)
        ensures
            match r {
                Guarded::Denied(d) => denied_ok(*caller, mod_role, d),
                Guarded::Done(res) => spec_is_moderator(*caller, mod_role) && (match res {
                    Ok(v) => album_views(v@) == self.albums(),
                    Err(e) => e == CatalogError::Storage,
                }),
            },
    {
        match check_is_moderator(caller, mod_role) {
            GuardVerdict::Allow => Guarded::Done(self.list_albums()),
            GuardVerdict::Deny(d) => Guarded::Denied(d),
        }
    }

    /// `delete_song` behind the authorization check.
    pub fn delete_song_guarded(&mut self, caller: &Caller, mod_role: u64, id: i64) -> (r: Guarded<
        Result<bool, CatalogError>,
    >)
        requires
            old(self).wf(),
        ensures
            final(self).wf(),
            match r {
                Guarded::Denied(d) => denied_ok(*caller, mod_role, d) && final(self).model()
                    == old(self).model(),
                Guarded::Done(res) => spec_is_moderator(*caller, mod_role) && delete_song_post(
                    old(self).model(),
                    final(self).model(),
                    id as int,
                    res,
                ),
            },
    {
        match check_is_moderator(caller, mod_role) {
            GuardVerdict::Allow => Guarded::Done(self.delete_song(id)),
            GuardVerdict::Deny(d) => Guarded::Denied(d),
        }
    }
}

/// `count` clamped to the inclusive sampling range [1, 25].
pub open spec fn clamp_count(count: u32) -> int {
    if count < 1 {
        1
    } else if count > 25 {
        25
    } else {
        count as int
    }
}

/// A moderation-guarded outcome: either the denial reply to send in
/// place of running the operation, or the operation's own result.
pub enum Guarded<T> {
    Denied(DenialReply),
    Done(T),
}

/// Law: of serialized `create_song` calls whose titles are equal
/// case-insensitively, at most one inserts. Once one has inserted, the
/// store holds a case-insensitive match for the shared title, so any
/// later such call — whatever rows other creations appended in between
/// — resolves as `DuplicateSong` or fails, never as `Created`.
pub proof fn lemma_at_most_one_same_title_creation(
    m0: StoreModel,
    m1: StoreModel,
    m2: StoreModel,
    title1: Seq<char>,
    album1: Seq<char>,
    id: i64,
    title2: Seq<char>,
    album2: Seq<char>,
    r2: Result<SongCreation, CatalogError>,
)
    requires
        create_song_post(m0, m1, title1, album1, Ok(SongCreation::Created(id))),
        create_song_post(m1, m2, title2, album2, r2),
        eq_ci(title1, title2),
    ensures
        !(r2 matches Ok(SongCreation::Created(_))),
{
    crate::model::lemma_duplicate_check_persists(
        m0.songs,
        SongView { id: id as int, title: title1, album: album1 },
        title2,
    );
}

/// Law: a repeated album deletion finds nothing. The first call removed
/// every case-insensitive match for the name, so an immediately
/// repeated call with the same name reports that no row was removed.
pub proof fn lemma_repeated_album_deletion_reports_false(
    m0: StoreModel,
    m1: StoreModel,
    m2: StoreModel,
    name: Seq<char>,
    removed1: bool,
    r2: Result<bool, CatalogError>,
)
    requires
        delete_album_post(m0, m1, name, Ok(removed1)),
        delete_album_post(m1, m2, name, r2),
    ensures
        r2 matches Ok(removed2) ==> !removed2,
{
    crate::model::lemma_delete_album_leaves_no_match(m0.albums, name);
}

/// Keeps exactly the rows filed under `album`, in order — the
/// case-sensitive filter `list_songs` applies.
pub fn filter_songs_by_album(rows: Vec<Song>, album: &String) -> (r: Vec<Song>)
    ensures
        song_views(r@) == songs_in_album(song_views(rows@), album@),
{
    let n = rows.len();
    let mut out: Vec<Song> = Vec::new();
    let mut i: usize = 0;
    while i < n
        invariant
            0 <= i <= n,
            n == rows@.len(),
            song_views(out@) == songs_in_album(song_views(rows@).take(i as int), album@),
        decreases n - i,
    {
        proof {
            lemma_filter_take_step(song_views(rows@), in_album(album@), i as int);
            assert(song_views(rows@)[i as int] == rows@[i as int]@);
        }
        let ghost prev = out@;
        if rows[i].album == *album {
            out.push(rows[i].clone());
            proof {
                assert(song_views(out@) =~= song_views(prev).push(rows@[i as int]@));
            }
        }
        i += 1;
    }
    proof {
        assert(song_views(rows@).take(n as int) =~= song_views(rows@));
    }
    out
}

} // verus!
