//! Artists: the artist page's header, a track's primary artist, and the
//! artist's album list, newest first and without repeats.
use vstd::prelude::*;

use crate::messages::{opt_view, Album, Artist};
use crate::spotify::fields::{artist_label, first_artist_name, first_image_url, first_url};
use crate::spotify::types::{ArtistAlbumItem, SpotifyImage, TrackArtist};
use crate::text::{owned, seq_lt, str_eq, str_lt};

verus! {

/// How many albums one page of an artist's album list asks for.
pub const ARTIST_ALBUMS_PAGE_SIZE: usize = 10;

// -------------------------------------------------------------- the order
/// What albums are ordered by: release date, then name.
pub type AlbumKey = (Option<Seq<char>>, Seq<char>);

pub open spec fn album_key(a: Album) -> AlbumKey {
    (opt_view(a.release_date), a.name@)
}

/// Release dates, later first: a date before none, and two dates by their
/// text, the greater first.
pub open spec fn date_before(x: Option<Seq<char>>, y: Option<Seq<char>>) -> bool {
    match (x, y) {
        (Some(a), Some(b)) => seq_lt(b, a),
        (Some(_), None) => true,
        _ => false,
    }
}

/// Album order: newer release first; the same release date by name.
pub open spec fn key_lt(a: AlbumKey, b: AlbumKey) -> bool {
    date_before(a.0, b.0) || (a.0 == b.0 && seq_lt(a.1, b.1))
}

/// No album of `s` comes after a later one.
pub open spec fn albums_sorted(s: Seq<Album>) -> bool {
    forall|i: int, j: int| 0 <= i < j < s.len() ==> !key_lt(album_key(s[j]), album_key(s[i]))
}

/// The albums of `s` with key `k`, in order.
pub open spec fn with_key(s: Seq<Album>, k: AlbumKey) -> Seq<Album>
    decreases s.len(),
{
    if s.len() == 0 {
        Seq::empty()
    } else if album_key(s.last()) == k {
        with_key(s.drop_last(), k).push(s.last())
    } else {
        with_key(s.drop_last(), k)
    }
}

/// `s` is `input` sorted stably: in order, and the albums of each key in
/// the order they came.
pub open spec fn stable_sort_of(input: Seq<Album>, s: Seq<Album>) -> bool {
    &&& albums_sorted(s)
    &&& forall|k: AlbumKey| #[trigger] with_key(s, k) == with_key(input, k)
}

/// `s` without each album whose id repeats the one just before it.
pub open spec fn dedup_ids(s: Seq<Album>) -> Seq<Album>
    decreases s.len(),
{
    if s.len() == 0 {
        Seq::empty()
    } else if s.len() >= 2 && s[s.len() - 2].id@ == s.last().id@ {
        dedup_ids(s.drop_last())
    } else {
        dedup_ids(s.drop_last()).push(s.last())
    }
}

proof fn lemma_seq_lt_irreflexive(a: Seq<char>)
    ensures
        !seq_lt(a, a),
    decreases a.len(),
{
    if a.len() > 0 {
        lemma_seq_lt_irreflexive(a.drop_first());
    }
}

proof fn lemma_seq_lt_transitive(a: Seq<char>, b: Seq<char>, c: Seq<char>)
    requires
        seq_lt(a, b),
        seq_lt(b, c),
    ensures
        seq_lt(a, c),
    decreases a.len(),
{
    if a.len() > 0 && b.len() > 0 && c.len() > 0 && a[0] == b[0] && b[0] == c[0] {
        lemma_seq_lt_transitive(a.drop_first(), b.drop_first(), c.drop_first());
    }
}

proof fn lemma_seq_lt_total(a: Seq<char>, b: Seq<char>)
    ensures
        a == b || seq_lt(a, b) || seq_lt(b, a),
    decreases a.len(),
{
    if a.len() > 0 && b.len() > 0 && a[0] == b[0] {
        lemma_seq_lt_total(a.drop_first(), b.drop_first());
        if a.drop_first() == b.drop_first() {
            assert(a =~= seq![a[0]] + a.drop_first());
            assert(b =~= seq![b[0]] + b.drop_first());
        }
    } else if a.len() == 0 && b.len() == 0 {
        assert(a =~= b);
    }
}

proof fn lemma_key_order(a: AlbumKey, b: AlbumKey, c: AlbumKey)
    ensures
        !key_lt(a, a),
        a == b || key_lt(a, b) || key_lt(b, a),
        key_lt(a, b) && key_lt(b, c) ==> key_lt(a, c),
        key_lt(a, b) ==> !key_lt(b, a),
{
    lemma_seq_lt_irreflexive(a.1);
    if let Some(x) = a.0 {
        lemma_seq_lt_irreflexive(x);
    }
    lemma_seq_lt_total(a.1, b.1);
    if a.0 is Some && b.0 is Some {
        lemma_seq_lt_total(a.0->0, b.0->0);
    }
    if key_lt(a, b) && key_lt(b, c) {
        if a.0 is Some && b.0 is Some && c.0 is Some {
            if seq_lt(b.0->0, a.0->0) && seq_lt(c.0->0, b.0->0) {
                lemma_seq_lt_transitive(c.0->0, b.0->0, a.0->0);
            }
        }
        if a.0 == b.0 && b.0 == c.0 && seq_lt(a.1, b.1) && seq_lt(b.1, c.1) {
            lemma_seq_lt_transitive(a.1, b.1, c.1);
        }
    }
    if key_lt(a, b) && key_lt(b, a) {
        if a.0 is Some && b.0 is Some && seq_lt(b.0->0, a.0->0) && seq_lt(a.0->0, b.0->0) {
            lemma_seq_lt_transitive(a.0->0, b.0->0, a.0->0);
        }
        if a.0 == b.0 && seq_lt(a.1, b.1) && seq_lt(b.1, a.1) {
            lemma_seq_lt_transitive(a.1, b.1, a.1);
        }
    }
}

proof fn lemma_with_key_add(a: Seq<Album>, b: Seq<Album>, k: AlbumKey)
    ensures
        with_key(a + b, k) == with_key(a, k) + with_key(b, k),
    decreases b.len(),
{
    if b.len() == 0 {
        assert(a + b =~= a);
        assert(with_key(a, k) + with_key(b, k) =~= with_key(a, k));
    } else {
        lemma_with_key_add(a, b.drop_last(), k);
        assert((a + b).drop_last() =~= a + b.drop_last());
        assert((a + b).last() == b.last());
        if album_key(b.last()) == k {
            assert(with_key(a, k) + with_key(b.drop_last(), k).push(b.last())
                =~= (with_key(a, k) + with_key(b.drop_last(), k)).push(b.last()));
        }
    }
}

proof fn lemma_with_key_none(s: Seq<Album>, k: AlbumKey)
    requires
        forall|i: int| 0 <= i < s.len() ==> album_key(#[trigger] s[i]) != k,
    ensures
        with_key(s, k) == Seq::<Album>::empty(),
    decreases s.len(),
{
    if s.len() > 0 {
        lemma_with_key_none(s.drop_last(), k);
    }
}

/// Where `x` goes in the sorted `s`: after every album not later than it.
fn insert_position(s: &Vec<Album>, x: &Album) -> (pos: usize)
    requires
        albums_sorted(s@),
    ensures
        pos <= s@.len(),
        forall|i: int| 0 <= i < pos ==> !key_lt(album_key(*x), album_key(#[trigger] s@[i])),
        pos < s@.len() ==> key_lt(album_key(*x), album_key(s@[pos as int])),
{
    let mut i: usize = 0;
    while i < s.len()
        invariant
            i <= s@.len(),
            forall|j: int| 0 <= j < i ==> !key_lt(album_key(*x), album_key(#[trigger] s@[j])),
        decreases s.len() - i,
    {
        if album_lt(x, &s[i]) {
            return i;
        }
        i += 1;
    }
    i
}

/// Whether album `a` comes strictly before album `b`.
fn album_lt(a: &Album, b: &Album) -> (lt: bool)
    ensures
        lt == key_lt(album_key(*a), album_key(*b)),
{
    let dates_equal = match (&a.release_date, &b.release_date) {
        (Some(x), Some(y)) => str_eq(x.as_str(), y.as_str()),
        (None, None) => true,
        _ => false,
    };
    let date_first = match (&a.release_date, &b.release_date) {
        (Some(x), Some(y)) => str_lt(y.as_str(), x.as_str()),
        (Some(_), None) => true,
        _ => false,
    };
    date_first || (dates_equal && str_lt(a.name.as_str(), b.name.as_str()))
}

/// The albums sorted stably: newest first, the same date by name.
pub fn sort_albums(albums: Vec<Album>) -> (out: Vec<Album>)
    ensures
        stable_sort_of(albums@, out@),
{
    let mut out: Vec<Album> = Vec::new();
    let mut i: usize = 0;
    while i < albums.len()
        invariant
            i <= albums.len(),
            albums_sorted(out@),
            forall|k: AlbumKey| #[trigger] with_key(out@, k) == with_key(albums@.take(i as int), k),
        decreases albums.len() - i,
    {
        let x = albums[i].clone();
        let pos = insert_position(&out, &x);
        let ghost old_out = out@;
        out.insert(pos, x);
        proof {
            let kx = album_key(x);
            assert(out@ =~= old_out.take(pos as int) + seq![x] + old_out.skip(pos as int));
            // Every album after the insertion point is later than `x`.
            assert forall|j: int| pos <= j < old_out.len() implies key_lt(kx, album_key(#[trigger] old_out[j])) by {
                lemma_key_order(kx, album_key(old_out[pos as int]), album_key(old_out[j]));
                lemma_key_order(album_key(old_out[pos as int]), album_key(old_out[j]), kx);
            }
            assert forall|a: int, b: int| 0 <= a < b < out@.len() implies !key_lt(album_key(out@[b]), album_key(out@[a])) by {
                if a < pos && b == pos {
                    lemma_key_order(kx, album_key(old_out[a]), kx);
                } else if a < pos && b > pos {
                    lemma_key_order(album_key(old_out[b - 1]), album_key(old_out[a]), kx);
                    lemma_key_order(kx, album_key(old_out[b - 1]), album_key(old_out[a]));
                    lemma_key_order(album_key(old_out[a]), kx, album_key(old_out[b - 1]));
                } else if a == pos && b > pos {
                    lemma_key_order(kx, album_key(old_out[b - 1]), kx);
                } else if a > pos {
                    assert(out@[a] == old_out[a - 1]);
                    assert(out@[b] == old_out[b - 1]);
                }
            }
            assert forall|k: AlbumKey| #[trigger] with_key(out@, k) == with_key(albums@.take(i + 1), k) by {
                lemma_with_key_add(old_out.take(pos as int) + seq![x], old_out.skip(pos as int), k);
                lemma_with_key_add(old_out.take(pos as int), seq![x], k);
                lemma_with_key_add(old_out.take(pos as int), old_out.skip(pos as int), k);
                assert(old_out.take(pos as int) + old_out.skip(pos as int) =~= old_out);
                assert(albums@.take(i + 1).drop_last() =~= albums@.take(i as int));
                assert(seq![x].drop_last() =~= Seq::<Album>::empty());
                assert(seq![x].last() == x);
                assert(with_key(Seq::<Album>::empty(), k) == Seq::<Album>::empty());
                assert(with_key(seq![x], k) =~= (if kx == k { seq![x] } else { Seq::<Album>::empty() }));
                if kx == k {
                    assert forall|j: int| 0 <= j < old_out.skip(pos as int).len() implies
                        album_key(#[trigger] old_out.skip(pos as int)[j]) != k by {
                        assert(old_out.skip(pos as int)[j] == old_out[pos + j]);
                        lemma_key_order(kx, kx, kx);
                    }
                    lemma_with_key_none(old_out.skip(pos as int), k);
                    assert(with_key(old_out.take(pos as int), k) + with_key(seq![x], k) + Seq::<Album>::empty()
                        =~= with_key(old_out.take(pos as int), k).push(x));
                } else {
                    assert(with_key(old_out.take(pos as int), k) + with_key(seq![x], k) + with_key(old_out.skip(pos as int), k)
                        =~= with_key(old_out.take(pos as int), k) + with_key(old_out.skip(pos as int), k));
                }
            }
        }
        i += 1;
    }
    assert(albums@.take(albums@.len() as int) =~= albums@);
    out
}

/// `s` without repeated consecutive ids (`dedup_by` on the id).
pub fn dedup_album_ids(s: &Vec<Album>) -> (out: Vec<Album>)
    ensures
        out@ == dedup_ids(s@),
{
    let mut out: Vec<Album> = Vec::new();
    let mut i: usize = 0;
    while i < s.len()
        invariant
            i <= s.len(),
            out@ == dedup_ids(s@.take(i as int)),
        decreases s.len() - i,
    {
        let ghost t = s@.take(i + 1);
        assert(t.drop_last() =~= s@.take(i as int));
        if i >= 1 {
            assert(t[t.len() - 2] == s@[i - 1]);
        }
        if i == 0 || !str_eq(s[i - 1].id.as_str(), s[i].id.as_str()) {
            out.push(s[i].clone());
        }
        i += 1;
    }
    assert(s@.take(s@.len() as int) =~= s@);
    out
}

/// Sorts the albums newest first (the same date by name, ties in their
/// order) and drops an album whose id repeats the one before it.
pub fn sort_and_dedup_albums(albums: &mut Vec<Album>)
    ensures
        exists|s: Seq<Album>| stable_sort_of(old(albums)@, s) && final(albums)@ == dedup_ids(s),
{
    let mut input: Vec<Album> = Vec::new();
    std::mem::swap(&mut input, albums);
    let sorted = sort_albums(input);
    *albums = dedup_album_ids(&sorted);
}

proof fn lemma_with_key_found(s: Seq<Album>, k: AlbumKey)
    requires
        with_key(s, k).len() > 0,
    ensures
        exists|i: int| 0 <= i < s.len() && album_key(#[trigger] s[i]) == k,
    decreases s.len(),
{
    if s.len() > 0 && album_key(s.last()) != k {
        lemma_with_key_found(s.drop_last(), k);
        let i = choose|i: int| 0 <= i < s.drop_last().len() && album_key(#[trigger] s.drop_last()[i]) == k;
        assert(s[i] == s.drop_last()[i]);
    }
}

proof fn lemma_sorted_same_keys_equal(s1: Seq<Album>, s2: Seq<Album>)
    requires
        albums_sorted(s1),
        albums_sorted(s2),
        forall|k: AlbumKey| #[trigger] with_key(s1, k) == with_key(s2, k),
    ensures
        s1 == s2,
    decreases s1.len() + s2.len(),
{
    if s1.len() == 0 && s2.len() == 0 {
        assert(s1 =~= s2);
    } else if s1.len() == 0 {
        let k = album_key(s2.last());
        assert(with_key(s2, k).len() > 0);
        assert(with_key(s1, k) == with_key(s2, k));
    } else if s2.len() == 0 {
        let k = album_key(s1.last());
        assert(with_key(s1, k).len() > 0);
        assert(with_key(s1, k) == with_key(s2, k));
    } else {
        let a = s1.last();
        let b = s2.last();
        let ka = album_key(a);
        let kb = album_key(b);
        lemma_key_order(ka, kb, ka);
        if key_lt(ka, kb) {
            assert(with_key(s2, kb).len() > 0);
            assert(with_key(s1, kb) == with_key(s2, kb));
            lemma_with_key_found(s1, kb);
            let i = choose|i: int| 0 <= i < s1.len() && album_key(#[trigger] s1[i]) == kb;
            if i < s1.len() - 1 {
                assert(!key_lt(album_key(s1[s1.len() - 1]), album_key(s1[i])));
            }
        } else if key_lt(kb, ka) {
            assert(with_key(s1, ka).len() > 0);
            assert(with_key(s1, ka) == with_key(s2, ka));
            lemma_with_key_found(s2, ka);
            let i = choose|i: int| 0 <= i < s2.len() && album_key(#[trigger] s2[i]) == ka;
            if i < s2.len() - 1 {
                assert(!key_lt(album_key(s2[s2.len() - 1]), album_key(s2[i])));
            }
        } else {
            assert(ka == kb);
            assert(with_key(s1, ka) == with_key(s2, ka));
            assert(with_key(s1, ka).last() == a);
            assert(with_key(s2, ka).last() == b);
            let t1 = s1.drop_last();
            let t2 = s2.drop_last();
            assert forall|k: AlbumKey| #[trigger] with_key(t1, k) == with_key(t2, k) by {
                assert(with_key(s1, k) == with_key(s2, k));
                if k == ka {
                    assert(with_key(s1, k).drop_last() == with_key(t1, k));
                    assert(with_key(s2, k).drop_last() == with_key(t2, k));
                }
            }
            assert forall|i: int, j: int| 0 <= i < j < t1.len() implies !key_lt(album_key(t1[j]), album_key(t1[i])) by {
                assert(t1[i] == s1[i] && t1[j] == s1[j]);
            }
            assert forall|i: int, j: int| 0 <= i < j < t2.len() implies !key_lt(album_key(t2[j]), album_key(t2[i])) by {
                assert(t2[i] == s2[i] && t2[j] == s2[j]);
            }
            lemma_sorted_same_keys_equal(t1, t2);
            assert(s1 =~= t1.push(a));
            assert(s2 =~= t2.push(b));
        }
    }
}

/// Sorting albums stably has one result: two stable sorts of the same list
/// are equal (so the album list an artist page shows is determined).
pub proof fn law_stable_sort_unique(input: Seq<Album>, s1: Seq<Album>, s2: Seq<Album>)
    requires
        stable_sort_of(input, s1),
        stable_sort_of(input, s2),
    ensures
        s1 == s2,
{
    assert forall|k: AlbumKey| #[trigger] with_key(s1, k) == with_key(s2, k) by {
        assert(with_key(s1, k) == with_key(input, k));
        assert(with_key(s2, k) == with_key(input, k));
    }
    lemma_sorted_same_keys_equal(s1, s2);
}

/// Dropping repeated ids keeps albums of `s` only, keeps a sorted list
/// sorted, leaves no two neighbours with one id, and ends with the id `s`
/// ends with.
proof fn lemma_dedup_props(s: Seq<Album>)
    ensures
        forall|j: int| 0 <= j < dedup_ids(s).len() ==> exists|i: int| 0 <= i < s.len() && #[trigger] dedup_ids(s)[j] == s[i],
        albums_sorted(s) ==> albums_sorted(dedup_ids(s)),
        forall|j: int| 0 <= j < dedup_ids(s).len() - 1 ==> dedup_ids(s)[j].id@ != #[trigger] dedup_ids(s)[j + 1].id@,
        s.len() > 0 ==> dedup_ids(s).len() > 0 && dedup_ids(s).last().id@ == s.last().id@,
    decreases s.len(),
{
    if s.len() > 0 {
        let t = s.drop_last();
        lemma_dedup_props(t);
        let d = dedup_ids(t);
        assert forall|j: int| 0 <= j < d.len() implies exists|i: int| 0 <= i < s.len() && #[trigger] d[j] == s[i] by {
            let i = choose|i: int| 0 <= i < t.len() && d[j] == t[i];
            assert(s[i] == t[i]);
        }
        if albums_sorted(s) {
            assert forall|a: int, b: int| 0 <= a < b < t.len() implies !key_lt(album_key(t[b]), album_key(t[a])) by {
                assert(t[a] == s[a] && t[b] == s[b]);
            }
        }
        if !(s.len() >= 2 && s[s.len() - 2].id@ == s.last().id@) {
            let x = s.last();
            let e = d.push(x);
            assert(dedup_ids(s) == e);
            assert forall|j: int| 0 <= j < e.len() implies exists|i: int| 0 <= i < s.len() && #[trigger] e[j] == s[i] by {
                if j == d.len() {
                    assert(e[j] == s[s.len() - 1]);
                } else {
                    assert(e[j] == d[j]);
                    let i = choose|i: int| 0 <= i < s.len() && d[j] == s[i];
                }
            }
            if albums_sorted(s) {
                assert forall|a: int, b: int| 0 <= a < b < e.len() implies !key_lt(album_key(e[b]), album_key(e[a])) by {
                    if b == d.len() {
                        let i = choose|i: int| 0 <= i < t.len() && d[a] == t[i];
                        assert(s[i] == t[i]);
                        assert(!key_lt(album_key(s[s.len() - 1]), album_key(s[i])));
                    } else {
                        assert(e[a] == d[a] && e[b] == d[b]);
                    }
                }
            }
            assert forall|j: int| 0 <= j < e.len() - 1 implies e[j].id@ != #[trigger] e[j + 1].id@ by {
                if j == d.len() - 1 {
                    assert(e[j] == d.last());
                    assert(s[s.len() - 2] == t.last());
                } else {
                    assert(e[j] == d[j] && e[j + 1] == d[j + 1]);
                }
            }
        }
    }
}

/// After sorting and dropping repeats, the list stays newest first and no
/// two neighbours share an id.
pub proof fn law_dedup_keeps_order(s: Seq<Album>)
    requires
        albums_sorted(s),
    ensures
        albums_sorted(dedup_ids(s)),
        forall|i: int| 0 <= i < dedup_ids(s).len() - 1 ==> dedup_ids(s)[i].id@ != #[trigger] dedup_ids(s)[i + 1].id@,
{
    lemma_dedup_props(s);
}

// -------------------------------------------------------------- mappings
/// An artist as looked up: its id, name and first image.
pub fn artist_from_lookup(id: String, name: String, images: &Vec<SpotifyImage>) -> (a: Artist)
    ensures
        a.id == id,
        a.name == name,
        opt_view(a.image_url) == first_image_url(images@),
        a.image_key is None,
{
    let image_url = first_url(images);
    Artist { id, name, image_url, image_key: None }
}

/// The primary artist of a track: its first credited artist, without
/// artwork; an error where the track credits no one.
pub fn primary_artist(artists: Vec<TrackArtist>) -> (r: Result<Artist, String>)
    ensures
        artists@.len() > 0 ==> (r matches Ok(a) && a.id == artists@[0].id && a.name == artists@[0].name
            && a.image_url is None && a.image_key is None),
        artists@.len() == 0 ==> (r matches Err(m) && m@ == "Track has no associated artist in Spotify response."@),
{
    if artists.len() == 0 {
        return Err(owned("Track has no associated artist in Spotify response."));
    }
    let first = &artists[0];
    Ok(Artist { id: first.id.clone(), name: first.name.clone(), image_url: None, image_key: None })
}

/// Whether an album of the artist's list is one the artist only appears on.
pub open spec fn appears_on(item: ArtistAlbumItem) -> bool {
    opt_view(item.album_group) == Some("appears_on"@)
}

/// The album shown for an item of the artist's album list.
pub open spec fn album_of_item(item: ArtistAlbumItem, a: Album) -> bool {
    &&& a.id == item.id && a.name == item.name
    &&& a.artist@ == artist_label(item.artists@)
    &&& a.release_date == item.release_date
    &&& opt_view(a.image_url) == first_image_url(item.images@)
    &&& a.image_key is None
}

/// The albums of a page of the artist's album list, in order, without those
/// the artist only appears on.
pub open spec fn kept_items(items: Seq<ArtistAlbumItem>) -> Seq<ArtistAlbumItem>
    decreases items.len(),
{
    if items.len() == 0 {
        Seq::empty()
    } else if appears_on(items.last()) {
        kept_items(items.drop_last())
    } else {
        kept_items(items.drop_last()).push(items.last())
    }
}

/// The albums of a page of the artist's album list.
pub fn map_artist_albums(items: &Vec<ArtistAlbumItem>) -> (albums: Vec<Album>)
    ensures
        albums@.len() == kept_items(items@).len(),
        forall|i: int| 0 <= i < albums@.len() ==> album_of_item(kept_items(items@)[i], #[trigger] albums@[i]),
{
    let mut albums: Vec<Album> = Vec::new();
    let mut i: usize = 0;
    while i < items.len()
        invariant
            i <= items.len(),
            albums@.len() == kept_items(items@.take(i as int)).len(),
            forall|j: int| 0 <= j < albums@.len() ==> album_of_item(kept_items(items@.take(i as int))[j], #[trigger] albums@[j]),
        decreases items.len() - i,
    {
        let ghost pre = items@.take(i as int);
        let ghost post = items@.take(i + 1);
        assert(post.drop_last() =~= pre);
        let item = &items[i];
        let skip = match &item.album_group {
            Some(g) => str_eq(g.as_str(), "appears_on"),
            None => false,
        };
        if !skip {
            let album = Album {
                id: item.id.clone(),
                name: item.name.clone(),
                artist: first_artist_name(&item.artists),
                release_date: crate::messages::clone_opt_string(&item.release_date),
                image_url: first_url(&item.images),
                image_key: None,
            };
            albums.push(album);
        }
        i += 1;
    }
    assert(items@.take(items@.len() as int) =~= items@);
    albums
}

} // verus!
