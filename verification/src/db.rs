//! The embedded store behind the catalog: a single rusqlite connection
//! holding the `songs` and `albums` tables. This module is the crate's
//! trusted boundary — each wrapper runs one SQL statement (plus, for
//! inserts, the id read-back) and states, over the named table contents
//! below, what SQLite documents for that statement. Everything above it
//! is verified against these contracts.

use vstd::prelude::*;
use crate::model::{
    AlbumView, AlbumRecord, Song, SongView, StoreModel, album_views, remove_albums_ci,
    remove_song_by_id, song_views, songs_in_album, store_wf,
};

verus! {

#[verifier::external_type_specification]
#[verifier::external_body]
pub struct ExConnection(rusqlite::Connection);

#[verifier::external_type_specification]
#[verifier::external_body]
pub struct ExRusqliteError(rusqlite::Error);

/// The rows of the `songs` table, in ascending id order.
pub uninterp spec fn songs_of(c: rusqlite::Connection) -> Seq<SongView>;

/// The rows of the `albums` table, in ascending id order.
pub uninterp spec fn albums_of(c: rusqlite::Connection) -> Seq<AlbumView>;

/// The `songs` table's `sqlite_sequence` entry, or 0 while there is
/// none: in a store this catalog maintains, the largest id the table
/// has ever assigned.
pub uninterp spec fn song_id_high(c: rusqlite::Connection) -> int;

/// The `albums` table's `sqlite_sequence` entry, or 0 while there is
/// none.
pub uninterp spec fn album_id_high(c: rusqlite::Connection) -> int;

/// Everything a connection holds, gathered into one model value.
pub open spec fn store_model(c: rusqlite::Connection) -> StoreModel {
    StoreModel {
        songs: songs_of(c),
        albums: albums_of(c),
        song_high: song_id_high(c),
        album_high: album_id_high(c),
    }
}

/// Relies on rusqlite's `Connection::open_in_memory` and
/// `Connection::execute`: a fresh in-memory database holds no rows, its
/// AUTOINCREMENT counters start before 1, and `CREATE TABLE IF NOT
/// EXISTS` only adds the (empty) tables.
#[verifier::external_body]
pub(crate) fn open_memory_store() -> (r: Result<rusqlite::Connection, rusqlite::Error>)
    ensures
        match r {
            Ok(c) => store_model(c) == (StoreModel {
                songs: Seq::<SongView>::empty(),
                albums: Seq::<AlbumView>::empty(),
                song_high: 0,
                album_high: 0,
            }),
            Err(_) => true,
        },
{
    let c = rusqlite::Connection::open_in_memory()?;
    c.execute(
        "CREATE TABLE IF NOT EXISTS songs (id INTEGER PRIMARY KEY AUTOINCREMENT, title TEXT, album TEXT)",
        (),
    )?;
    c.execute(
        "CREATE TABLE IF NOT EXISTS albums (id INTEGER PRIMARY KEY AUTOINCREMENT, name TEXT)",
        (),
    )?;
    Ok(c)
}

/// Relies on rusqlite's `Connection::open` (default flags: the file at
/// `path` is opened, or created when absent) and `Connection::execute`
/// for the idempotent `CREATE TABLE IF NOT EXISTS` statements. Nothing
/// is promised of what the file already held — `Catalog::open` checks
/// the contents in verified code before trusting them.
#[verifier::external_body]
pub(crate) fn open_file_store(path: &String) -> (r: Result<rusqlite::Connection, rusqlite::Error>)
{
    let c = rusqlite::Connection::open(path.as_str())?;
    c.execute(
        "CREATE TABLE IF NOT EXISTS songs (id INTEGER PRIMARY KEY AUTOINCREMENT, title TEXT, album TEXT)",
        (),
    )?;
    c.execute(
        "CREATE TABLE IF NOT EXISTS albums (id INTEGER PRIMARY KEY AUTOINCREMENT, name TEXT)",
        (),
    )?;
    Ok(c)
}

/// Relies on rusqlite's `prepare`, `Statement::query`, `Rows::next` and
/// `Row::get` reading the `songs` entry of `sqlite_sequence`; the
/// entry is absent while the table never assigned an id, which counts
/// as 0.
#[verifier::external_body]
pub(crate) fn read_song_id_high(c: &rusqlite::Connection) -> (r: Result<i64, rusqlite::Error>)
    ensures
        match r {
            Ok(h) => h as int == song_id_high(*c),
            Err(_) => true,
        },
{
    let mut stmt = c.prepare("SELECT seq FROM sqlite_sequence WHERE name = 'songs'")?;
    let mut rows = stmt.query(())?;
    match rows.next()? {
        Some(row) => row.get(0),
        None => Ok(0),
    }
}

/// Relies on rusqlite's `prepare`, `Statement::query`, `Rows::next` and
/// `Row::get`, as for `read_song_id_high`, for the `albums` entry.
#[verifier::external_body]
pub(crate) fn read_album_id_high(c: &rusqlite::Connection) -> (r: Result<i64, rusqlite::Error>)
    ensures
        match r {
            Ok(h) => h as int == album_id_high(*c),
            Err(_) => true,
        },
{
    let mut stmt = c.prepare("SELECT seq FROM sqlite_sequence WHERE name = 'albums'")?;
    let mut rows = stmt.query(())?;
    match rows.next()? {
        Some(row) => row.get(0),
        None => Ok(0),
    }
}

/// Relies on rusqlite's `Connection::execute` running a single INSERT
/// and `Connection::last_insert_rowid` returning the id SQLite chose.
/// With AUTOINCREMENT that id is one more than the larger of the
/// `sqlite_sequence` entry and the largest stored rowid — one more than
/// the entry itself, thanks to the well-formedness precondition — and
/// once that would pass `i64::MAX` the insert fails (SQLITE_FULL)
/// instead of reusing an id. A failed statement changes nothing.
#[verifier::external_body]
pub(crate) fn insert_song_row(
    c: &mut rusqlite::Connection,
    title: &String,
    album: &String,
) -> (r: Result<i64, rusqlite::Error>)
    requires
        store_wf(store_model(*old(c))),
    ensures
        match r {
            Ok(id) => {
                &&& song_id_high(*old(c)) < i64::MAX
                &&& id as int == song_id_high(*old(c)) + 1
                &&& song_id_high(*final(c)) == id as int
                &&& songs_of(*final(c)) == songs_of(*old(c)).push(
                    (SongView { id: id as int, title: title@, album: album@ }),
                )
                &&& albums_of(*final(c)) == albums_of(*old(c))
                &&& album_id_high(*final(c)) == album_id_high(*old(c))
            },
            Err(_) => store_model(*final(c)) == store_model(*old(c)),
        },
{
    c.execute(
        "INSERT INTO songs (title, album) VALUES (?1, ?2)",
        (title.as_str(), album.as_str()),
    )?;
    Ok(c.last_insert_rowid())
}

/// Relies on rusqlite's `Connection::execute` and
/// `Connection::last_insert_rowid`, as for song inserts.
#[verifier::external_body]
pub(crate) fn insert_album_row(
    c: &mut rusqlite::Connection,
    name: &String,
) -> (r: Result<i64, rusqlite::Error>)
    requires
        store_wf(store_model(*old(c))),
    ensures
        match r {
            Ok(id) => {
                &&& album_id_high(*old(c)) < i64::MAX
                &&& id as int == album_id_high(*old(c)) + 1
                &&& album_id_high(*final(c)) == id as int
                &&& albums_of(*final(c)) == albums_of(*old(c)).push(
                    (AlbumView { id: id as int, name: name@ }),
                )
                &&& songs_of(*final(c)) == songs_of(*old(c))
                &&& song_id_high(*final(c)) == song_id_high(*old(c))
            },
            Err(_) => store_model(*final(c)) == store_model(*old(c)),
        },
{
    c.execute("INSERT INTO albums (name) VALUES (?1)", (name.as_str(),))?;
    Ok(c.last_insert_rowid())
}

/// Relies on rusqlite's `Connection::execute` running a single DELETE
/// and returning how many rows it removed. A failed statement changes
/// nothing.
#[verifier::external_body]
pub(crate) fn delete_song_row(c: &mut rusqlite::Connection, id: i64) -> (r: Result<
    usize,
    rusqlite::Error,
>)
    ensures
        match r {
            Ok(n) => {
                &&& songs_of(*final(c)) == remove_song_by_id(songs_of(*old(c)), id as int)
                &&& n as int == songs_of(*old(c)).len() - songs_of(*final(c)).len()
                &&& albums_of(*final(c)) == albums_of(*old(c))
                &&& song_id_high(*final(c)) == song_id_high(*old(c))
                &&& album_id_high(*final(c)) == album_id_high(*old(c))
            },
            Err(_) => store_model(*final(c)) == store_model(*old(c)),
        },
{
    c.execute("DELETE FROM songs WHERE id = ?1", (id,))
}

/// Relies on rusqlite's `Connection::execute` running a single DELETE
/// and returning how many rows it removed; SQLite's `UPPER` folds ASCII
/// letters only, the folding `eq_ci` states. A failed statement changes
/// nothing.
#[verifier::external_body]
pub(crate) fn delete_album_rows_ci(c: &mut rusqlite::Connection, name: &String) -> (r: Result<
    usize,
    rusqlite::Error,
>)
    ensures
        match r {
            Ok(n) => {
                &&& albums_of(*final(c)) == remove_albums_ci(albums_of(*old(c)), name@)
                &&& n as int == albums_of(*old(c)).len() - albums_of(*final(c)).len()
                &&& songs_of(*final(c)) == songs_of(*old(c))
                &&& song_id_high(*final(c)) == song_id_high(*old(c))
                &&& album_id_high(*final(c)) == album_id_high(*old(c))
            },
            Err(_) => store_model(*final(c)) == store_model(*old(c)),
        },
{
    c.execute("DELETE FROM albums WHERE UPPER(name) = UPPER(?1)", (name.as_str(),))
}

/// Relies on rusqlite's `prepare`, `Statement::query`, `Rows::next` and
/// `Row::get` reading the `songs` table; `ORDER BY id` returns the rows
/// in ascending id order, the order `songs_of` lists them in.
#[verifier::external_body]
pub(crate) fn select_song_rows(c: &rusqlite::Connection) -> (r: Result<Vec<Song>, rusqlite::Error>)
    ensures
        match r {
            Ok(v) => song_views(v@) == songs_of(*c),
            Err(_) => true,
        },
{
    let mut stmt = c.prepare("SELECT id, title, album FROM songs ORDER BY id")?;
    let mut rows = stmt.query(())?;
    let mut out = Vec::new();
    loop {
        match rows.next()? {
            Some(row) => out.push(Song { id: row.get(0)?, title: row.get(1)?, album: row.get(2)? }),
            None => return Ok(out),
        }
    }
}

/// Relies on rusqlite's `prepare`, `Statement::query`, `Rows::next` and
/// `Row::get` reading the `albums` table in ascending id order.
#[verifier::external_body]
pub(crate) fn select_album_rows(c: &rusqlite::Connection) -> (r: Result<
    Vec<AlbumRecord>,
    rusqlite::Error,
>)
    ensures
        match r {
            Ok(v) => album_views(v@) == albums_of(*c),
            Err(_) => true,
        },
{
    let mut stmt = c.prepare("SELECT id, name FROM albums ORDER BY id")?;
    let mut rows = stmt.query(())?;
    let mut out = Vec::new();
    loop {
        match rows.next()? {
            Some(row) => out.push(AlbumRecord { id: row.get(0)?, name: row.get(1)? }),
            None => return Ok(out),
        }
    }
}

/// Relies on rusqlite running `ORDER BY RANDOM() LIMIT ?`: the result is
/// some `limit`-bounded selection of distinct rows of the `songs` table
/// — which rows come back is left to SQLite's random ordering, so only
/// what holds of every outcome is stated. Distinctness is by id, the
/// table's primary key.
#[verifier::external_body]
pub(crate) fn sample_song_rows(c: &rusqlite::Connection, limit: u32) -> (r: Result<
    Vec<Song>,
    rusqlite::Error,
>)
    ensures
        match r {
            Ok(v) => {
                &&& v@.len() == (if limit as int <= songs_of(*c).len() {
                    limit as int
                } else {
                    songs_of(*c).len() as int
                })
                &&& forall|i: int|
                    0 <= i < v@.len() ==> songs_of(*c).contains(#[trigger] song_views(v@)[i])
                &&& forall|i: int, j: int|
                    #![trigger song_views(v@)[i], song_views(v@)[j]]
                    0 <= i < j < v@.len() ==> song_views(v@)[i].id != song_views(v@)[j].id
            },
            Err(_) => true,
        },
{
    let mut stmt = c.prepare("SELECT id, title, album FROM songs ORDER BY RANDOM() LIMIT ?1")?;
    let mut rows = stmt.query((limit,))?;
    let mut out = Vec::new();
    loop {
        match rows.next()? {
            Some(row) => out.push(Song { id: row.get(0)?, title: row.get(1)?, album: row.get(2)? }),
            None => return Ok(out),
        }
    }
}

/// Relies on rusqlite running `WHERE album = ? ORDER BY RANDOM() LIMIT
/// ?`: as `sample_song_rows`, drawn from the rows whose album text
/// equals the filter byte for byte (SQLite's default BINARY collation).
#[verifier::external_body]
pub(crate) fn sample_album_song_rows(
    c: &rusqlite::Connection,
    album: &String,
    limit: u32,
) -> (r: Result<Vec<Song>, rusqlite::Error>)
    ensures
        match r {
            Ok(v) => {
                &&& v@.len() == (if limit as int <= songs_in_album(songs_of(*c), album@).len() {
                    limit as int
                } else {
                    songs_in_album(songs_of(*c), album@).len() as int
                })
                &&& forall|i: int|
                    0 <= i < v@.len() ==> songs_in_album(songs_of(*c), album@).contains(
                        #[trigger] song_views(v@)[i],
                    )
                &&& forall|i: int, j: int|
                    #![trigger song_views(v@)[i], song_views(v@)[j]]
                    0 <= i < j < v@.len() ==> song_views(v@)[i].id != song_views(v@)[j].id
            },
            Err(_) => true,
        },
{
    let mut stmt =
        c.prepare("SELECT id, title, album FROM songs WHERE album = ?1 ORDER BY RANDOM() LIMIT ?2")?;
    let mut rows = stmt.query((album.as_str(), limit))?;
    let mut out = Vec::new();
    loop {
        match rows.next()? {
            Some(row) => out.push(Song { id: row.get(0)?, title: row.get(1)?, album: row.get(2)? }),
            None => return Ok(out),
        }
    }
}

} // verus!
