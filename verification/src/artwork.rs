//! Artwork that is fetched after the results it belongs to: which images to
//! fetch under which keys, and how the keys of the images that arrived are
//! put back on the results.
use vstd::prelude::*;
use vstd::string::StringExecFns;

use crate::messages::{opt_view, Album, Artist, PlaylistEntry, Track};
use crate::spotify::SpotifyPlaylist;
use crate::text::{concat2, owned};

verus! {

/// An image to fetch: the position of the result it belongs to, the key it
/// is stored under, and its URL.
#[derive(Debug)]
pub struct ImageJob {
    pub index: usize,
    pub key: String,
    pub url: String,
}

/// The artwork sources of a list: each item's id and image URL.
pub type Sources = Seq<(Seq<char>, Option<Seq<char>>)>;

/// The jobs for the items that have an image, in order: each keyed by
/// `prefix` and either its URL or its id.
pub open spec fn jobs_of(sources: Sources, prefix: Seq<char>, key_by_url: bool) -> Seq<(int, Seq<char>, Seq<char>)>
    decreases sources.len(),
{
    if sources.len() == 0 {
        Seq::empty()
    } else {
        let init = jobs_of(sources.drop_last(), prefix, key_by_url);
        let (id, url) = sources.last();
        match url {
            Some(u) => init.push(((sources.len() - 1) as int, prefix + if key_by_url { u } else { id }, u)),
            None => init,
        }
    }
}

/// The jobs by characters.
pub open spec fn job_view(jobs: Seq<ImageJob>) -> Seq<(int, Seq<char>, Seq<char>)> {
    jobs.map_values(|j: ImageJob| (j.index as int, j.key@, j.url@))
}

pub open spec fn track_sources(tracks: Seq<Track>) -> Sources {
    tracks.map_values(|t: Track| (t.id@, opt_view(t.album_image_url)))
}

pub open spec fn artist_sources(artists: Seq<Artist>) -> Sources {
    artists.map_values(|a: Artist| (a.id@, opt_view(a.image_url)))
}

pub open spec fn album_sources(albums: Seq<Album>) -> Sources {
    albums.map_values(|a: Album| (a.id@, opt_view(a.image_url)))
}

pub open spec fn playlist_sources(playlists: Seq<SpotifyPlaylist>) -> Sources {
    playlists.map_values(|p: SpotifyPlaylist| (p.id@, opt_view(p.image_url)))
}

/// Adding the job of one more source.
fn push_job(jobs: &mut Vec<ImageJob>, index: usize, prefix: &str, id: &String, url: &Option<String>, key_by_url: bool)
    ensures
        job_view(final(jobs)@) == match url {
            Some(u) => job_view(old(jobs)@).push((index as int, prefix@ + if key_by_url { u@ } else { id@ }, u@)),
            None => job_view(old(jobs)@),
        },
{
    if let Some(u) = url {
        let key = if key_by_url { concat2(prefix, u.as_str()) } else { concat2(prefix, id.as_str()) };
        let ghost before = job_view(jobs@);
        jobs.push(ImageJob { index, key, url: u.clone() });
        assert(job_view(jobs@) =~= before.push((index as int, prefix@ + if key_by_url { u@ } else { id@ }, u@)));
    }
}

/// The artwork of a track list, keyed by `prefix` and the track id or the
/// image URL.
pub fn track_artwork_jobs(tracks: &Vec<Track>, prefix: &str, key_by_url: bool) -> (jobs: Vec<ImageJob>)
    ensures
        job_view(jobs@) == jobs_of(track_sources(tracks@), prefix@, key_by_url),
{
    let mut jobs: Vec<ImageJob> = Vec::new();
    let mut i: usize = 0;
    while i < tracks.len()
        invariant
            i <= tracks.len(),
            job_view(jobs@) == jobs_of(track_sources(tracks@).take(i as int), prefix@, key_by_url),
        decreases tracks.len() - i,
    {
        let ghost src = track_sources(tracks@);
        assert(src.take(i + 1).drop_last() =~= src.take(i as int));
        push_job(&mut jobs, i, prefix, &tracks[i].id, &tracks[i].album_image_url, key_by_url);
        i += 1;
    }
    assert(track_sources(tracks@).take(tracks@.len() as int) =~= track_sources(tracks@));
    jobs
}

/// The artwork of an artist list, keyed by `prefix` and the artist id.
pub fn artist_artwork_jobs(artists: &Vec<Artist>, prefix: &str) -> (jobs: Vec<ImageJob>)
    ensures
        job_view(jobs@) == jobs_of(artist_sources(artists@), prefix@, false),
{
    let mut jobs: Vec<ImageJob> = Vec::new();
    let mut i: usize = 0;
    while i < artists.len()
        invariant
            i <= artists.len(),
            job_view(jobs@) == jobs_of(artist_sources(artists@).take(i as int), prefix@, false),
        decreases artists.len() - i,
    {
        let ghost src = artist_sources(artists@);
        assert(src.take(i + 1).drop_last() =~= src.take(i as int));
        push_job(&mut jobs, i, prefix, &artists[i].id, &artists[i].image_url, false);
        i += 1;
    }
    assert(artist_sources(artists@).take(artists@.len() as int) =~= artist_sources(artists@));
    jobs
}

/// The artwork of an album list, keyed by `prefix` and the album id.
pub fn album_artwork_jobs(albums: &Vec<Album>, prefix: &str) -> (jobs: Vec<ImageJob>)
    ensures
        job_view(jobs@) == jobs_of(album_sources(albums@), prefix@, false),
{
    let mut jobs: Vec<ImageJob> = Vec::new();
    let mut i: usize = 0;
    while i < albums.len()
        invariant
            i <= albums.len(),
            job_view(jobs@) == jobs_of(album_sources(albums@).take(i as int), prefix@, false),
        decreases albums.len() - i,
    {
        let ghost src = album_sources(albums@);
        assert(src.take(i + 1).drop_last() =~= src.take(i as int));
        push_job(&mut jobs, i, prefix, &albums[i].id, &albums[i].image_url, false);
        i += 1;
    }
    assert(album_sources(albums@).take(albums@.len() as int) =~= album_sources(albums@));
    jobs
}

// ------------------------------------------------------------ applying keys
/// The key that the arrivals give item `i`: that of the last arrival for
/// it, else `prior`.
pub open spec fn key_for(loaded: Seq<(int, Seq<char>)>, i: int, prior: Option<Seq<char>>) -> Option<Seq<char>>
    decreases loaded.len(),
{
    if loaded.len() == 0 {
        prior
    } else if loaded.last().0 == i {
        Some(loaded.last().1)
    } else {
        key_for(loaded.drop_last(), i, prior)
    }
}

/// The arrivals (position and key) by characters.
pub open spec fn arrivals(loaded: Seq<(usize, String)>) -> Seq<(int, Seq<char>)> {
    loaded.map_values(|a: (usize, String)| (a.0 as int, a.1@))
}

/// The arrivals that fetching every job gives.
pub open spec fn job_arrivals(jobs: Seq<(int, Seq<char>, Seq<char>)>) -> Seq<(int, Seq<char>)> {
    jobs.map_values(|j: (int, Seq<char>, Seq<char>)| (j.0, j.1))
}

/// Puts the keys of the track images that arrived on their tracks; an
/// arrival for a position past the list is ignored.
pub fn apply_track_image_keys(tracks: &mut Vec<Track>, loaded: &Vec<(usize, String)>)
    ensures
        final(tracks)@.len() == old(tracks)@.len(),
        forall|i: int| 0 <= i < old(tracks)@.len() ==> {
            let t = #[trigger] final(tracks)@[i];
            let o = old(tracks)@[i];
            &&& t.id == o.id && t.name == o.name && t.artist == o.artist && t.duration_ms == o.duration_ms
            &&& t.album_image_url == o.album_image_url && t.album_playback_image_url == o.album_playback_image_url
            &&& opt_view(t.album_image_key) == key_for(arrivals(loaded@), i, opt_view(o.album_image_key))
        },
{
    let ghost orig = tracks@;
    let mut k: usize = 0;
    while k < loaded.len()
        invariant
            k <= loaded.len(),
            tracks@.len() == orig.len(),
            forall|i: int| 0 <= i < orig.len() ==> {
                let t = #[trigger] tracks@[i];
                let o = orig[i];
                &&& t.id == o.id && t.name == o.name && t.artist == o.artist && t.duration_ms == o.duration_ms
                &&& t.album_image_url == o.album_image_url && t.album_playback_image_url == o.album_playback_image_url
                &&& opt_view(t.album_image_key) == key_for(arrivals(loaded@.take(k as int)), i, opt_view(o.album_image_key))
            },
        decreases loaded.len() - k,
    {
        assert(arrivals(loaded@.take(k + 1)).drop_last() =~= arrivals(loaded@.take(k as int)));
        let idx = loaded[k].0;
        if idx < tracks.len() {
            let mut t = tracks[idx].clone();
            t.album_image_key = Some(loaded[k].1.clone());
            tracks.set(idx, t);
        }
        k += 1;
    }
    assert(loaded@.take(loaded@.len() as int) =~= loaded@);
}

/// Puts the keys of the artist images that arrived on their artists.
pub fn apply_artist_image_keys(artists: &mut Vec<Artist>, loaded: &Vec<(usize, String)>)
    ensures
        final(artists)@.len() == old(artists)@.len(),
        forall|i: int| 0 <= i < old(artists)@.len() ==> {
            let a = #[trigger] final(artists)@[i];
            let o = old(artists)@[i];
            &&& a.id == o.id && a.name == o.name && a.image_url == o.image_url
            &&& opt_view(a.image_key) == key_for(arrivals(loaded@), i, opt_view(o.image_key))
        },
{
    let ghost orig = artists@;
    let mut k: usize = 0;
    while k < loaded.len()
        invariant
            k <= loaded.len(),
            artists@.len() == orig.len(),
            forall|i: int| 0 <= i < orig.len() ==> {
                let a = #[trigger] artists@[i];
                let o = orig[i];
                &&& a.id == o.id && a.name == o.name && a.image_url == o.image_url
                &&& opt_view(a.image_key) == key_for(arrivals(loaded@.take(k as int)), i, opt_view(o.image_key))
            },
        decreases loaded.len() - k,
    {
        assert(arrivals(loaded@.take(k + 1)).drop_last() =~= arrivals(loaded@.take(k as int)));
        let idx = loaded[k].0;
        if idx < artists.len() {
            let mut a = artists[idx].clone();
            a.image_key = Some(loaded[k].1.clone());
            artists.set(idx, a);
        }
        k += 1;
    }
    assert(loaded@.take(loaded@.len() as int) =~= loaded@);
}

/// Puts the keys of the album images that arrived on their albums.
pub fn apply_album_image_keys(albums: &mut Vec<Album>, loaded: &Vec<(usize, String)>)
    ensures
        final(albums)@.len() == old(albums)@.len(),
        forall|i: int| 0 <= i < old(albums)@.len() ==> {
            let a = #[trigger] final(albums)@[i];
            let o = old(albums)@[i];
            &&& a.id == o.id && a.name == o.name && a.artist == o.artist && a.release_date == o.release_date
            &&& a.image_url == o.image_url
            &&& opt_view(a.image_key) == key_for(arrivals(loaded@), i, opt_view(o.image_key))
        },
{
    let ghost orig = albums@;
    let mut k: usize = 0;
    while k < loaded.len()
        invariant
            k <= loaded.len(),
            albums@.len() == orig.len(),
            forall|i: int| 0 <= i < orig.len() ==> {
                let a = #[trigger] albums@[i];
                let o = orig[i];
                &&& a.id == o.id && a.name == o.name && a.artist == o.artist && a.release_date == o.release_date
                &&& a.image_url == o.image_url
                &&& opt_view(a.image_key) == key_for(arrivals(loaded@.take(k as int)), i, opt_view(o.image_key))
            },
        decreases loaded.len() - k,
    {
        assert(arrivals(loaded@.take(k + 1)).drop_last() =~= arrivals(loaded@.take(k as int)));
        let idx = loaded[k].0;
        if idx < albums.len() {
            let mut a = albums[idx].clone();
            a.image_key = Some(loaded[k].1.clone());
            albums.set(idx, a);
        }
        k += 1;
    }
    assert(loaded@.take(loaded@.len() as int) =~= loaded@);
}

/// Puts the keys of the playlist images that arrived on their rows.
pub fn apply_playlist_image_keys(entries: &mut Vec<PlaylistEntry>, loaded: &Vec<(usize, String)>)
    ensures
        final(entries)@.len() == old(entries)@.len(),
        forall|i: int| 0 <= i < old(entries)@.len() ==> {
            let e = #[trigger] final(entries)@[i];
            let o = old(entries)@[i];
            &&& e.id == o.id && e.name == o.name && e.track_count == o.track_count
            &&& e.total_duration_ms == o.total_duration_ms
            &&& opt_view(e.image_key) == key_for(arrivals(loaded@), i, opt_view(o.image_key))
        },
{
    let ghost orig = entries@;
    let mut k: usize = 0;
    while k < loaded.len()
        invariant
            k <= loaded.len(),
            entries@.len() == orig.len(),
            forall|i: int| 0 <= i < orig.len() ==> {
                let e = #[trigger] entries@[i];
                let o = orig[i];
                &&& e.id == o.id && e.name == o.name && e.track_count == o.track_count
                &&& e.total_duration_ms == o.total_duration_ms
                &&& opt_view(e.image_key) == key_for(arrivals(loaded@.take(k as int)), i, opt_view(o.image_key))
            },
        decreases loaded.len() - k,
    {
        assert(arrivals(loaded@.take(k + 1)).drop_last() =~= arrivals(loaded@.take(k as int)));
        let idx = loaded[k].0;
        if idx < entries.len() {
            let mut e = entries[idx].clone();
            e.image_key = Some(loaded[k].1.clone());
            entries.set(idx, e);
        }
        k += 1;
    }
    assert(loaded@.take(loaded@.len() as int) =~= loaded@);
}

/// The sidebar row of a playlist: no artwork yet and no known duration.
pub open spec fn entry_of(p: SpotifyPlaylist, e: PlaylistEntry) -> bool {
    &&& e.id == p.id && e.name == p.name && e.track_count == p.track_count
    &&& e.image_key is None && e.total_duration_ms == 0
}

/// The sidebar rows of the user's playlists, and the artwork to fetch for
/// them (keyed by `playlist-artwork:` and the image URL).
pub fn playlist_entries(playlists: &Vec<SpotifyPlaylist>) -> (r: (Vec<PlaylistEntry>, Vec<ImageJob>))
    ensures
        r.0@.len() == playlists@.len(),
        forall|i: int| 0 <= i < playlists@.len() ==> entry_of(playlists@[i], #[trigger] r.0@[i]),
        job_view(r.1@) == jobs_of(playlist_sources(playlists@), "playlist-artwork:"@, true),
{
    let mut entries: Vec<PlaylistEntry> = Vec::new();
    let mut jobs: Vec<ImageJob> = Vec::new();
    let mut i: usize = 0;
    while i < playlists.len()
        invariant
            i <= playlists.len(),
            entries@.len() == i,
            forall|j: int| 0 <= j < i ==> entry_of(playlists@[j], #[trigger] entries@[j]),
            job_view(jobs@) == jobs_of(playlist_sources(playlists@).take(i as int), "playlist-artwork:"@, true),
        decreases playlists.len() - i,
    {
        let ghost src = playlist_sources(playlists@);
        assert(src.take(i + 1).drop_last() =~= src.take(i as int));
        let p = &playlists[i];
        push_job(&mut jobs, i, "playlist-artwork:", &p.id, &p.image_url, true);
        entries.push(PlaylistEntry {
            id: p.id.clone(),
            name: p.name.clone(),
            image_key: None,
            track_count: p.track_count,
            total_duration_ms: 0,
        });
        i += 1;
    }
    assert(playlist_sources(playlists@).take(playlists@.len() as int) =~= playlist_sources(playlists@));
    (entries, jobs)
}

/// The sum of the tracks' durations.
pub open spec fn durations_sum(tracks: Seq<Track>) -> int
    decreases tracks.len(),
{
    if tracks.len() == 0 { 0 } else { durations_sum(tracks.drop_last()) + tracks.last().duration_ms }
}

/// The total duration of a track list, in ms.
pub fn total_duration_ms(tracks: &Vec<Track>) -> (total: u64)
    requires
        durations_sum(tracks@) <= u64::MAX,
    ensures
        total == durations_sum(tracks@),
{
    let mut total: u64 = 0;
    let mut i: usize = 0;
    while i < tracks.len()
        invariant
            i <= tracks.len(),
            total == durations_sum(tracks@.take(i as int)),
            durations_sum(tracks@) <= u64::MAX,
        decreases tracks.len() - i,
    {
        assert(tracks@.take(i + 1).drop_last() =~= tracks@.take(i as int));
        proof { lemma_durations_prefix(tracks@, i + 1); }
        total = total + tracks[i].duration_ms as u64;
        i += 1;
    }
    assert(tracks@.take(tracks@.len() as int) =~= tracks@);
    total
}

proof fn lemma_durations_prefix(tracks: Seq<Track>, k: int)
    requires
        0 <= k <= tracks.len(),
    ensures
        durations_sum(tracks.take(k)) <= durations_sum(tracks),
    decreases tracks.len() - k,
{
    if k < tracks.len() {
        lemma_durations_prefix(tracks, k + 1);
        assert(tracks.take(k + 1).drop_last() =~= tracks.take(k));
    } else {
        assert(tracks.take(k) =~= tracks);
    }
}

proof fn lemma_jobs_below(sources: Sources, prefix: Seq<char>, key_by_url: bool)
    ensures
        forall|k: int| 0 <= k < jobs_of(sources, prefix, key_by_url).len()
            ==> #[trigger] jobs_of(sources, prefix, key_by_url)[k].0 < sources.len(),
    decreases sources.len(),
{
    if sources.len() > 0 {
        let init = sources.drop_last();
        lemma_jobs_below(init, prefix, key_by_url);
        let ji = jobs_of(init, prefix, key_by_url);
        let js = jobs_of(sources, prefix, key_by_url);
        assert forall|k: int| 0 <= k < js.len() implies #[trigger] js[k].0 < sources.len() by {
            if k < ji.len() {
                assert(js[k] == ji[k]);
            }
        }
    }
}

proof fn lemma_key_for_absent(loaded: Seq<(int, Seq<char>)>, i: int, prior: Option<Seq<char>>)
    requires
        forall|k: int| 0 <= k < loaded.len() ==> (#[trigger] loaded[k]).0 != i,
    ensures
        key_for(loaded, i, prior) == prior,
    decreases loaded.len(),
{
    if loaded.len() > 0 {
        assert(loaded.last() == loaded[loaded.len() - 1]);
        lemma_key_for_absent(loaded.drop_last(), i, prior);
    }
}

/// Fetching every artwork job and putting back the keys gives each item
/// that has an image the key of its job, and leaves the others as they were.
pub proof fn law_job_keys_land_on_their_items(
    sources: Sources,
    prefix: Seq<char>,
    key_by_url: bool,
    i: int,
    prior: Option<Seq<char>>,
)
    requires
        0 <= i < sources.len(),
    ensures
        key_for(job_arrivals(jobs_of(sources, prefix, key_by_url)), i, prior) == match sources[i].1 {
            Some(u) => Some(prefix + if key_by_url { u } else { sources[i].0 }),
            None => prior,
        },
    decreases sources.len(),
{
    let n = sources.len() - 1;
    let init = sources.drop_last();
    let ji = jobs_of(init, prefix, key_by_url);
    assert(job_arrivals(ji).len() == ji.len());
    if i < n {
        assert(sources[i] == init[i]);
        law_job_keys_land_on_their_items(init, prefix, key_by_url, i, prior);
        if sources.last().1 is Some {
            assert(job_arrivals(jobs_of(sources, prefix, key_by_url)).drop_last() =~= job_arrivals(ji));
        } else {
            assert(jobs_of(sources, prefix, key_by_url) == ji);
        }
    } else {
        if sources.last().1 is None {
            assert(jobs_of(sources, prefix, key_by_url) == ji);
            lemma_jobs_below(init, prefix, key_by_url);
            assert forall|k: int| 0 <= k < job_arrivals(ji).len() implies (#[trigger] job_arrivals(ji)[k]).0 != i by {
                assert(job_arrivals(ji)[k].0 == ji[k].0);
            }
            lemma_key_for_absent(job_arrivals(ji), i, prior);
        }
    }
}

} // verus!
