use songbook::catalog::{Album, Catalog, SongCreation};
use songbook::errors::CatalogError;

#[test]
fn empty_store_lists_nothing() {
    let cat = Catalog::open_in_memory().unwrap();
    let songs = cat.list_songs(None).unwrap();
    assert!(songs.is_empty());
    let albums = cat.list_albums().unwrap();
    assert!(albums.is_empty());
}

#[test]
fn created_album_is_listed_once() {
    let mut cat = Catalog::open_in_memory().unwrap();
    let id = cat.create_album(&"Live Songs".to_string()).unwrap();
    assert_eq!(id, 1);
    let albums = cat.list_albums().unwrap();
    assert_eq!(albums.len(), 1);
    assert_eq!(albums[0].id, 1);
    assert_eq!(albums[0].name, "Live Songs");
}

#[test]
fn album_creation_skips_duplicate_check() {
    let mut cat = Catalog::open_in_memory().unwrap();
    cat.create_album(&"Covers".to_string()).unwrap();
    cat.create_album(&"covers".to_string()).unwrap();
    assert_eq!(cat.list_albums().unwrap().len(), 2);
}

#[test]
fn second_same_title_creation_is_duplicate() {
    let mut cat = Catalog::open_in_memory().unwrap();
    let first = cat
        .create_song(&"Encore".to_string(), &"Live Songs".to_string())
        .unwrap();
    assert!(matches!(first, SongCreation::Created(1)));
    let second = cat
        .create_song(&"encore".to_string(), &"Live Songs".to_string())
        .unwrap();
    assert!(matches!(second, SongCreation::DuplicateSong));
    assert_eq!(cat.list_songs(None).unwrap().len(), 1);
}

#[test]
fn deleting_missing_song_reports_false() {
    let mut cat = Catalog::open_in_memory().unwrap();
    assert_eq!(cat.delete_song(9999).unwrap(), false);
}

#[test]
fn deleting_existing_song_reports_true() {
    let mut cat = Catalog::open_in_memory().unwrap();
    let created = cat
        .create_song(&"Opener".to_string(), &"Live Songs".to_string())
        .unwrap();
    let id = match created {
        SongCreation::Created(id) => id,
        SongCreation::DuplicateSong => panic!("fresh store reported a duplicate"),
    };
    assert_eq!(cat.delete_song(id).unwrap(), true);
    assert!(cat.list_songs(None).unwrap().is_empty());
}

#[test]
fn album_deletion_matches_case_insensitively_and_second_call_is_false() {
    let mut cat = Catalog::open_in_memory().unwrap();
    cat.create_album(&"Covers".to_string()).unwrap();
    assert_eq!(cat.delete_album(&"COVERS".to_string()).unwrap(), true);
    assert_eq!(cat.delete_album(&"COVERS".to_string()).unwrap(), false);
    assert!(cat.list_albums().unwrap().is_empty());
}

#[test]
fn song_listing_filters_case_sensitively_unlike_album_deletion() {
    let mut cat = Catalog::open_in_memory().unwrap();
    cat.create_album(&"Covers".to_string()).unwrap();
    cat.create_song(&"Halo".to_string(), &"Covers".to_string())
        .unwrap();

    // The list filter is exact: the lower-cased album text matches nothing.
    let lower = cat.list_songs(Some(&"covers".to_string())).unwrap();
    assert!(lower.is_empty());
    let exact = cat.list_songs(Some(&"Covers".to_string())).unwrap();
    assert_eq!(exact.len(), 1);
    assert_eq!(exact[0].title, "Halo");
    assert_eq!(exact[0].album, "Covers");

    // Album deletion, by contrast, matches the same spelling difference.
    assert_eq!(cat.delete_album(&"covers".to_string()).unwrap(), true);
}

#[test]
fn created_song_appears_in_listing_under_fresh_id() {
    let mut cat = Catalog::open_in_memory().unwrap();
    cat.create_song(&"Warmup".to_string(), &"A".to_string())
        .unwrap();
    let before: Vec<i64> = cat.list_songs(None).unwrap().iter().map(|s| s.id).collect();

    let created = cat.create_song(&"X".to_string(), &"A".to_string()).unwrap();
    let id = match created {
        SongCreation::Created(id) => id,
        SongCreation::DuplicateSong => panic!("title was not stored yet"),
    };
    assert!(!before.contains(&id));
    let after = cat.list_songs(None).unwrap();
    assert!(after.iter().any(|s| s.id == id && s.title == "X" && s.album == "A"));
}

#[test]
fn song_ids_are_never_reused() {
    let mut cat = Catalog::open_in_memory().unwrap();
    cat.create_song(&"One".to_string(), &"A".to_string()).unwrap();
    let second = cat.create_song(&"Two".to_string(), &"A".to_string()).unwrap();
    let id2 = match second {
        SongCreation::Created(id) => id,
        SongCreation::DuplicateSong => panic!("title was not stored yet"),
    };
    assert_eq!(cat.delete_song(id2).unwrap(), true);
    let third = cat.create_song(&"Three".to_string(), &"A".to_string()).unwrap();
    match third {
        SongCreation::Created(id3) => assert!(id3 > id2),
        SongCreation::DuplicateSong => panic!("title was not stored yet"),
    }
}

#[test]
fn deleted_title_can_be_created_again() {
    let mut cat = Catalog::open_in_memory().unwrap();
    let first = cat.create_song(&"Reprise".to_string(), &"A".to_string()).unwrap();
    let id = match first {
        SongCreation::Created(id) => id,
        SongCreation::DuplicateSong => panic!("title was not stored yet"),
    };
    assert_eq!(cat.delete_song(id).unwrap(), true);
    let again = cat.create_song(&"REPRISE".to_string(), &"A".to_string()).unwrap();
    assert!(matches!(again, SongCreation::Created(_)));
}

#[test]
fn sampling_is_clamped_to_twenty_five() {
    let mut cat = Catalog::open_in_memory().unwrap();
    for i in 0..30 {
        cat.create_song(&format!("Song {}", i), &"A".to_string()).unwrap();
    }
    let sampled = cat.sample_songs(None, 100).unwrap();
    assert_eq!(sampled.len(), 25);
}

#[test]
fn sampling_returns_at_most_count_distinct_rows() {
    let mut cat = Catalog::open_in_memory().unwrap();
    for i in 0..10 {
        cat.create_song(&format!("Song {}", i), &"A".to_string()).unwrap();
    }
    let sampled = cat.sample_songs(None, 3).unwrap();
    assert_eq!(sampled.len(), 3);
    let mut ids: Vec<i64> = sampled.iter().map(|s| s.id).collect();
    ids.sort();
    ids.dedup();
    assert_eq!(ids.len(), 3);
}

#[test]
fn sampling_returns_fewer_only_when_fewer_exist() {
    let mut cat = Catalog::open_in_memory().unwrap();
    cat.create_song(&"Only".to_string(), &"A".to_string()).unwrap();
    let sampled = cat.sample_songs(None, 25).unwrap();
    assert_eq!(sampled.len(), 1);
    let empty = Catalog::open_in_memory().unwrap();
    assert!(empty.sample_songs(None, 5).unwrap().is_empty());
}

#[test]
fn sampling_respects_the_album_filter() {
    let mut cat = Catalog::open_in_memory().unwrap();
    for i in 0..8 {
        cat.create_song(&format!("A side {}", i), &"A".to_string()).unwrap();
    }
    for i in 0..8 {
        cat.create_song(&format!("B side {}", i), &"B".to_string()).unwrap();
    }
    let sampled = cat.sample_songs(Some(&"B".to_string()), 5).unwrap();
    assert_eq!(sampled.len(), 5);
    assert!(sampled.iter().all(|s| s.album == "B"));
}

#[test]
fn sampling_count_below_range_is_raised_to_one() {
    let mut cat = Catalog::open_in_memory().unwrap();
    cat.create_song(&"Lone".to_string(), &"A".to_string()).unwrap();
    cat.create_song(&"Pair".to_string(), &"A".to_string()).unwrap();
    let sampled = cat.sample_songs(None, 0).unwrap();
    assert_eq!(sampled.len(), 1);
}

#[test]
fn album_name_search_is_a_case_sensitive_prefix_match() {
    let mut cat = Catalog::open_in_memory().unwrap();
    cat.create_album(&"Live Songs".to_string()).unwrap();
    cat.create_album(&"live bootlegs".to_string()).unwrap();
    cat.create_album(&"Covers".to_string()).unwrap();

    let hits = cat.search_album_names(&"Li".to_string()).unwrap();
    assert_eq!(hits, vec!["Live Songs".to_string()]);

    let all = cat.search_album_names(&"".to_string()).unwrap();
    assert_eq!(all.len(), 3);

    let none = cat.search_album_names(&"zz".to_string()).unwrap();
    assert!(none.is_empty());
}

#[test]
fn songs_accept_free_text_albums() {
    let mut cat = Catalog::open_in_memory().unwrap();
    let created = cat
        .create_song(&"Stray".to_string(), &"not a known album".to_string())
        .unwrap();
    assert!(matches!(created, SongCreation::Created(_)));
    let rows = cat.list_songs(Some(&"not a known album".to_string())).unwrap();
    assert_eq!(rows.len(), 1);
}

#[test]
fn album_choices_carry_their_display_names() {
    assert_eq!(Album::SinglesBSides.name(), "Singles/B-Sides");
    assert_eq!(Album::LiveSongs.name(), "Live Songs");
    assert_eq!(Album::Covers.name(), "Covers");
}

#[test]
fn opening_a_database_path_yields_a_working_catalog() {
    // SQLite treats this path as a fresh private database, so the test
    // leaves no file behind.
    let mut cat = Catalog::open(&":memory:".to_string()).unwrap();
    assert!(cat.list_songs(None).unwrap().is_empty());
    let created = cat.create_song(&"First".to_string(), &"A".to_string()).unwrap();
    assert!(matches!(created, SongCreation::Created(1)));
}

#[test]
fn reopening_a_catalog_database_verifies_its_contents_and_succeeds() {
    // A shared-cache in-memory database outlives one connection while
    // another holds it, so the reopen sees the first catalog's rows.
    let uri = "file:reopened_catalog?mode=memory&cache=shared".to_string();
    let keep_alive = rusqlite::Connection::open(&uri).unwrap();

    let mut cat = Catalog::open(&uri).unwrap();
    let created = cat.create_song(&"Kept".to_string(), &"A".to_string()).unwrap();
    assert!(matches!(created, SongCreation::Created(1)));
    drop(cat);

    let reopened = Catalog::open(&uri).unwrap();
    let songs = reopened.list_songs(None).unwrap();
    assert_eq!(songs.len(), 1);
    assert_eq!(songs[0].title, "Kept");
    drop(keep_alive);
}

#[test]
fn a_foreign_database_with_ids_above_the_mark_is_refused() {
    let uri = "file:tampered_catalog?mode=memory&cache=shared".to_string();
    let outside = rusqlite::Connection::open(&uri).unwrap();
    outside
        .execute(
            "CREATE TABLE songs (id INTEGER PRIMARY KEY AUTOINCREMENT, title TEXT, album TEXT)",
            (),
        )
        .unwrap();
    outside
        .execute(
            "CREATE TABLE albums (id INTEGER PRIMARY KEY AUTOINCREMENT, name TEXT)",
            (),
        )
        .unwrap();
    outside
        .execute(
            "INSERT INTO songs (id, title, album) VALUES (100, 'Smuggled', 'A')",
            (),
        )
        .unwrap();
    outside
        .execute("UPDATE sqlite_sequence SET seq = 5 WHERE name = 'songs'", ())
        .unwrap();

    match Catalog::open(&uri) {
        Ok(_) => panic!("a store with an id above its high-water mark was accepted"),
        Err(err) => assert_eq!(err, CatalogError::Storage),
    }
    drop(outside);
}

#[test]
fn a_foreign_database_with_a_negative_sequence_is_refused() {
    let uri = "file:negative_sequence?mode=memory&cache=shared".to_string();
    let outside = rusqlite::Connection::open(&uri).unwrap();
    outside
        .execute(
            "CREATE TABLE songs (id INTEGER PRIMARY KEY AUTOINCREMENT, title TEXT, album TEXT)",
            (),
        )
        .unwrap();
    outside
        .execute(
            "CREATE TABLE albums (id INTEGER PRIMARY KEY AUTOINCREMENT, name TEXT)",
            (),
        )
        .unwrap();
    outside
        .execute(
            "INSERT INTO sqlite_sequence (name, seq) VALUES ('songs', -4)",
            (),
        )
        .unwrap();

    match Catalog::open(&uri) {
        Ok(_) => panic!("a store with a negative sequence entry was accepted"),
        Err(err) => assert_eq!(err, CatalogError::Storage),
    }
    drop(outside);
}

#[test]
fn unopenable_database_reports_a_storage_error() {
    match Catalog::open(&"/".to_string()) {
        Ok(_) => panic!("opening a directory as a database succeeded"),
        Err(err) => assert_eq!(err, CatalogError::Storage),
    }
}
