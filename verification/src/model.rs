//! The mathematical model of the catalog: what a song row and an album
//! row are, what the whole store holds, and the sequence-level facts the
//! store's contracts are proved from.

use vstd::prelude::*;
use crate::text::{eq_ci, is_prefix};

verus! {

/// A song row as the contracts see it.
#[verifier::ext_equal]
pub ghost struct SongView {
    pub id: int,
    pub title: Seq<char>,
    pub album: Seq<char>,
}

/// An album row as the contracts see it.
#[verifier::ext_equal]
pub ghost struct AlbumView {
    pub id: int,
    pub name: Seq<char>,
}

/// A song row: a store-assigned id, a title, and the album text the song
/// was filed under (a known album name or free text).
pub struct Song {
    pub id: i64,
    pub title: String,
    pub album: String,
}

impl View for Song {
    type V = SongView;

    open spec fn view(&self) -> SongView {
        SongView { id: self.id as int, title: self.title@, album: self.album@ }
    }
}

impl Clone for Song {
    fn clone(&self) -> (res: Song)
        ensures
            res == *self,
    {
        Song { id: self.id, title: self.title.clone(), album: self.album.clone() }
    }
}

/// An album row: a store-assigned id and a name.
pub struct AlbumRecord {
    pub id: i64,
    pub name: String,
}

impl View for AlbumRecord {
    type V = AlbumView;

    open spec fn view(&self) -> AlbumView {
        AlbumView { id: self.id as int, name: self.name@ }
    }
}

impl Clone for AlbumRecord {
    fn clone(&self) -> (res: AlbumRecord)
        ensures
            res == *self,
    {
        AlbumRecord { id: self.id, name: self.name.clone() }
    }
}

/// The views of a sequence of song rows.
pub open spec fn song_views(rows: Seq<Song>) -> Seq<SongView> {
    rows.map_values(|s: Song| s@)
}

/// The views of a sequence of album rows.
pub open spec fn album_views(rows: Seq<AlbumRecord>) -> Seq<AlbumView> {
    rows.map_values(|a: AlbumRecord| a@)
}

/// The views of a sequence of strings.
pub open spec fn string_views(rows: Seq<String>) -> Seq<Seq<char>> {
    rows.map_values(|s: String| s@)
}

/// Everything one connection holds: the two tables in ascending id
/// order, and the largest id each table has ever assigned.
#[verifier::ext_equal]
pub ghost struct StoreModel {
    pub songs: Seq<SongView>,
    pub albums: Seq<AlbumView>,
    pub song_high: int,
    pub album_high: int,
}

/// Each table's high-water mark is non-negative, and every row id is
/// positive and no larger than that mark — so a freshly assigned id can
/// never collide with a stored one.
pub open spec fn store_wf(m: StoreModel) -> bool {
    &&& 0 <= m.song_high
    &&& 0 <= m.album_high
    &&& forall|i: int| 0 <= i < m.songs.len() ==> 1 <= (#[trigger] m.songs[i]).id <= m.song_high
    &&& forall|i: int|
        0 <= i < m.albums.len() ==> 1 <= (#[trigger] m.albums[i]).id <= m.album_high
}

/// Some stored song's title equals `title` case-insensitively.
pub open spec fn has_title_ci(songs: Seq<SongView>, title: Seq<char>) -> bool {
    exists|i: int| 0 <= i < songs.len() && eq_ci((#[trigger] songs[i]).title, title)
}

/// Some stored album's name equals `name` case-insensitively.
pub open spec fn has_album_ci(albums: Seq<AlbumView>, name: Seq<char>) -> bool {
    exists|i: int| 0 <= i < albums.len() && eq_ci((#[trigger] albums[i]).name, name)
}

/// Some stored song carries exactly this id.
pub open spec fn has_song_id(songs: Seq<SongView>, id: int) -> bool {
    exists|i: int| 0 <= i < songs.len() && (#[trigger] songs[i]).id == id
}

/// Some stored album carries exactly this id.
pub open spec fn has_album_id(albums: Seq<AlbumView>, id: int) -> bool {
    exists|i: int| 0 <= i < albums.len() && (#[trigger] albums[i]).id == id
}

/// Filed under exactly this album text (case-sensitive, unlike the
/// case-insensitive matching deletion uses).
pub open spec fn in_album(album: Seq<char>) -> spec_fn(SongView) -> bool {
    |s: SongView| s.album == album
}

/// The songs filed under exactly this album text, in storage order.
pub open spec fn songs_in_album(songs: Seq<SongView>, album: Seq<char>) -> Seq<SongView> {
    songs.filter(in_album(album))
}

/// Keeps an album when deleting rows whose name matches `name`
/// case-insensitively.
pub open spec fn survives_album_delete(name: Seq<char>) -> spec_fn(AlbumView) -> bool {
    |a: AlbumView| !eq_ci(a.name, name)
}

/// What remains of the albums after deleting by case-insensitive name.
pub open spec fn remove_albums_ci(albums: Seq<AlbumView>, name: Seq<char>) -> Seq<AlbumView> {
    albums.filter(survives_album_delete(name))
}

/// Keeps a song when deleting the row with this id.
pub open spec fn survives_song_delete(id: int) -> spec_fn(SongView) -> bool {
    |s: SongView| s.id != id
}

/// What remains of the songs after deleting by id.
pub open spec fn remove_song_by_id(songs: Seq<SongView>, id: int) -> Seq<SongView> {
    songs.filter(survives_song_delete(id))
}

/// The names of these album rows, in storage order.
pub open spec fn album_names(albums: Seq<AlbumView>) -> Seq<Seq<char>> {
    albums.map_values(|a: AlbumView| a.name)
}

/// Starts with the given prefix (case-sensitive).
pub open spec fn name_has_prefix(prefix: Seq<char>) -> spec_fn(Seq<char>) -> bool {
    |n: Seq<char>| is_prefix(prefix, n)
}

/// The album names that start with the given prefix, in storage order.
pub open spec fn names_with_prefix(albums: Seq<AlbumView>, prefix: Seq<char>) -> Seq<Seq<char>> {
    album_names(albums).filter(name_has_prefix(prefix))
}

/// A one-element sequence filters to itself or to nothing.
pub proof fn lemma_filter_one<A>(x: A, pred: spec_fn(A) -> bool)
    ensures
        seq![x].filter(pred) == (if pred(x) {
            seq![x]
        } else {
            Seq::<A>::empty()
        }),
{
    reveal_with_fuel(Seq::filter, 2);
    assert(seq![x].drop_last() =~= Seq::<A>::empty());
    assert(seq![x].last() == x);
    assert(Seq::<A>::empty().filter(pred) =~= Seq::<A>::empty());
    if pred(x) {
        assert(Seq::<A>::empty().push(x) =~= seq![x]);
    }
}

/// Filtering one more element extends the filtered prefix by that
/// element exactly when it satisfies the predicate.
pub proof fn lemma_filter_take_step<A>(s: Seq<A>, pred: spec_fn(A) -> bool, i: int)
    requires
        0 <= i < s.len(),
    ensures
        s.take(i + 1).filter(pred) == (if pred(s[i]) {
            s.take(i).filter(pred).push(s[i])
        } else {
            s.take(i).filter(pred)
        }),
{
    assert(s.take(i + 1) =~= s.take(i) + seq![s[i]]);
    Seq::<A>::filter_distributes_over_add(s.take(i), seq![s[i]], pred);
    lemma_filter_one(s[i], pred);
    if pred(s[i]) {
        assert(s.take(i).filter(pred) + seq![s[i]] =~= s.take(i).filter(pred).push(s[i]));
    } else {
        assert(s.take(i).filter(pred) + Seq::<A>::empty() =~= s.take(i).filter(pred));
    }
}

/// Every element of a filtered sequence comes from the original one.
pub proof fn lemma_filter_subset<A>(s: Seq<A>, pred: spec_fn(A) -> bool)
    ensures
        forall|i: int|
            0 <= i < s.filter(pred).len() ==> s.contains(#[trigger] s.filter(pred)[i]),
    decreases s.len(),
{
    reveal(Seq::filter);
    if s.len() > 0 {
        let t = s.drop_last();
        lemma_filter_subset(t, pred);
        assert forall|i: int|
            0 <= i < s.filter(pred).len() implies s.contains(#[trigger] s.filter(pred)[i]) by {
            if pred(s.last()) && i == s.filter(pred).len() - 1 {
                assert(s.filter(pred)[i] == s.last());
                assert(s[s.len() - 1] == s.last());
            } else {
                assert(s.filter(pred)[i] == t.filter(pred)[i]);
                assert(t.contains(t.filter(pred)[i]));
                let j = choose|j: int| 0 <= j < t.len() && t[j] == t.filter(pred)[i];
                assert(s[j] == t.filter(pred)[i]);
            }
        }
    }
}

/// A filter shrinks a sequence exactly when some element fails the
/// predicate.
pub proof fn lemma_filter_shrinks_iff<A>(s: Seq<A>, pred: spec_fn(A) -> bool)
    ensures
        s.filter(pred).len() <= s.len(),
        (s.filter(pred).len() < s.len()) <==> (exists|i: int|
            0 <= i < s.len() && !pred(#[trigger] s[i])),
    decreases s.len(),
{
    reveal(Seq::filter);
    if s.len() > 0 {
        let t = s.drop_last();
        lemma_filter_shrinks_iff(t, pred);
        if pred(s.last()) {
            if exists|i: int| 0 <= i < s.len() && !pred(#[trigger] s[i]) {
                let i = choose|i: int| 0 <= i < s.len() && !pred(#[trigger] s[i]);
                assert(i < t.len() && t[i] == s[i]);
                assert(t.filter(pred).len() < t.len());
            }
            if exists|i: int| 0 <= i < t.len() && !pred(#[trigger] t[i]) {
                let i = choose|i: int| 0 <= i < t.len() && !pred(#[trigger] t[i]);
                assert(s[i] == t[i]);
            }
        } else {
            assert(!pred(s[s.len() - 1]));
            assert(s.filter(pred).len() <= t.len());
        }
    }
}

/// Law: in any serialized run of creations, once a song whose title
/// equals `title` case-insensitively stands in the store, it still does
/// after any further row is appended — so after one same-title creation
/// succeeds, the duplicate check `create_song` is specified by stays
/// true and every later same-title creation resolves as a duplicate:
/// at most one of them ever inserts.
pub proof fn lemma_duplicate_check_persists(songs: Seq<SongView>, s: SongView, title: Seq<char>)
    ensures
        has_title_ci(songs, title) || eq_ci(s.title, title) ==> has_title_ci(
            songs.push(s),
            title,
        ),
{
    if has_title_ci(songs, title) {
        let i = choose|i: int| 0 <= i < songs.len() && eq_ci((#[trigger] songs[i]).title, title);
        assert(songs.push(s)[i] == songs[i]);
    } else if eq_ci(s.title, title) {
        assert(songs.push(s)[songs.len() as int] == s);
    }
}

/// Law: deleting an album name leaves no case-insensitive match behind,
/// so an immediate second deletion with the same name removes nothing
/// and reports that nothing was found.
pub proof fn lemma_delete_album_leaves_no_match(albums: Seq<AlbumView>, name: Seq<char>)
    ensures
        !has_album_ci(remove_albums_ci(albums, name), name),
{
    let kept = remove_albums_ci(albums, name);
    assert forall|i: int| 0 <= i < kept.len() implies !eq_ci((#[trigger] kept[i]).name, name) by {
        albums.lemma_filter_pred(survives_album_delete(name), i);
    }
}

/// Law: a creation appends a row whose id tops the old high-water mark,
/// so the new row stands in the next full listing and its id was never
/// carried by any row stored before it.
pub proof fn lemma_created_song_is_listed(m: StoreModel, s: SongView)
    requires
        store_wf(m),
        s.id == m.song_high + 1,
    ensures
        m.songs.push(s).contains(s),
        !has_song_id(m.songs, s.id),
{
    assert(m.songs.push(s)[m.songs.len() as int] == s);
}

} // verus!
