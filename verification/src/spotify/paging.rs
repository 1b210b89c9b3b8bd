//! Lists that come in pages: what has been gathered so far, and where the
//! next page starts (or that the list is complete).
use vstd::prelude::*;

use crate::messages::{Album, Track};
use crate::spotify::albums::{album_tracks_kept, map_album_tracks, track_of_album_item};
use crate::spotify::artists::{album_of_item, kept_items, map_artist_albums, sort_and_dedup_albums, dedup_ids, stable_sort_of};
use crate::spotify::playlists::{map_playlist_tracks, playlist_tracks_kept, track_of_entry};
use crate::spotify::types::{AlbumTrackObject, ArtistAlbumItem, PlaylistTrackWrapper};

verus! {

/// Where the page after one of `page_size` items at `offset` starts, or
/// nothing once `total` is reached (or, with `stop_on_empty`, after an empty
/// page).
pub open spec fn next_offset(offset: usize, page_size: nat, total: usize, stop_on_empty: bool) -> Option<usize> {
    if offset + page_size >= total || (stop_on_empty && page_size == 0) {
        None
    } else {
        Some((offset + page_size) as usize)
    }
}

/// The most tracks a playlist listing keeps, whatever limit is asked for.
pub const MAX_PLAYLIST_TRACKS: usize = 50;

/// The number of tracks a playlist listing with limit `limit` keeps at most.
pub open spec fn playlist_cap(limit: usize) -> nat {
    if limit < MAX_PLAYLIST_TRACKS { limit as nat } else { MAX_PLAYLIST_TRACKS as nat }
}

/// The smaller of two numbers.
pub open spec fn min_nat(a: nat, b: nat) -> nat {
    if a <= b { a } else { b }
}

/// A track list gathered page by page.
#[derive(Debug)]
pub struct TrackListing {
    pub offset: usize,
    pub tracks: Vec<Track>,
}

impl TrackListing {
    /// Nothing gathered, the first page next.
    pub fn new() -> (l: Self)
        ensures
            l.offset == 0,
            l.tracks@.len() == 0,
    {
        TrackListing { offset: 0, tracks: Vec::new() }
    }

    /// Takes in a page of a playlist (`total` entries in all) for a listing
    /// of at most `limit` tracks (and never more than fifty): its tracks join
    /// the list up to that many, and the offset moves past the page's
    /// entries. The list is complete once the entries run out or the list is
    /// full.
    pub fn take_playlist_page(&mut self, entries: &Vec<PlaylistTrackWrapper>, total: usize, limit: usize) -> (next: Option<usize>)
        requires
            old(self).offset + entries@.len() <= usize::MAX,
        ensures
            final(self).offset == old(self).offset + entries@.len(),
            final(self).tracks@.len() == min_nat(
                old(self).tracks@.len() + playlist_tracks_kept(entries@).len(),
                playlist_cap(limit),
            ),
            final(self).tracks@.len() <= playlist_cap(limit),
            forall|i: int| 0 <= i < final(self).tracks@.len() && i < old(self).tracks@.len()
                ==> #[trigger] final(self).tracks@[i] == old(self).tracks@[i],
            forall|i: int| 0 <= i < playlist_tracks_kept(entries@).len()
                && old(self).tracks@.len() + i < final(self).tracks@.len() ==> track_of_entry(
                playlist_tracks_kept(entries@)[i],
                #[trigger] final(self).tracks@[old(self).tracks@.len() + i],
            ),
            next == (if final(self).offset >= total || final(self).tracks@.len() >= playlist_cap(limit) {
                None
            } else {
                Some(final(self).offset)
            }),
    {
        let cap: usize = if limit < MAX_PLAYLIST_TRACKS { limit } else { MAX_PLAYLIST_TRACKS };
        let mut page = map_playlist_tracks(entries);
        let ghost before = self.tracks@;
        let ghost added = page@;
        self.tracks.append(&mut page);
        assert forall|i: int| 0 <= i < added.len() implies #[trigger] self.tracks@[before.len() + i] == added[i] by {}
        let ghost full = self.tracks@;
        self.tracks.truncate(cap);
        assert forall|i: int| 0 <= i < self.tracks@.len() implies #[trigger] self.tracks@[i] == full[i] by {}
        self.offset = self.offset + entries.len();
        if self.offset >= total || self.tracks.len() >= cap {
            None
        } else {
            Some(self.offset)
        }
    }

    /// Takes in a page of an album's track list (`total` items in all).
    pub fn take_album_page(&mut self, items: &Vec<AlbumTrackObject>, total: usize) -> (next: Option<usize>)
        requires
            old(self).offset + items@.len() <= usize::MAX,
        ensures
            final(self).offset == old(self).offset + items@.len(),
            next == next_offset(old(self).offset, items@.len(), total, false),
            final(self).tracks@.len() == old(self).tracks@.len() + album_tracks_kept(items@).len(),
            final(self).tracks@.take(old(self).tracks@.len() as int) == old(self).tracks@,
            forall|i: int| 0 <= i < album_tracks_kept(items@).len() ==> track_of_album_item(
                album_tracks_kept(items@)[i],
                #[trigger] final(self).tracks@[old(self).tracks@.len() + i],
            ),
    {
        let mut page = map_album_tracks(items);
        let ghost before = self.tracks@;
        let ghost added = page@;
        self.tracks.append(&mut page);
        assert(self.tracks@.take(before.len() as int) =~= before);
        assert forall|i: int| 0 <= i < added.len() implies #[trigger] self.tracks@[before.len() + i] == added[i] by {}
        self.offset = self.offset + items.len();
        if self.offset >= total {
            None
        } else {
            Some(self.offset)
        }
    }
}

/// An artist's album list gathered page by page.
#[derive(Debug)]
pub struct AlbumListing {
    pub offset: usize,
    pub albums: Vec<Album>,
}

impl AlbumListing {
    /// Nothing gathered, the first page next.
    pub fn new() -> (l: Self)
        ensures
            l.offset == 0,
            l.albums@.len() == 0,
    {
        AlbumListing { offset: 0, albums: Vec::new() }
    }

    /// Takes in a page of the artist's albums (`total` in all): the albums
    /// the artist does not only appear on join the list, and the offset moves
    /// on by as many; a page that adds none ends the list.
    pub fn take_page(&mut self, items: &Vec<ArtistAlbumItem>, total: usize) -> (next: Option<usize>)
        requires
            old(self).offset + items@.len() <= usize::MAX,
        ensures
            final(self).offset == old(self).offset + kept_items(items@).len(),
            next == next_offset(old(self).offset, kept_items(items@).len(), total, true),
            final(self).albums@.len() == old(self).albums@.len() + kept_items(items@).len(),
            final(self).albums@.take(old(self).albums@.len() as int) == old(self).albums@,
            forall|i: int| 0 <= i < kept_items(items@).len() ==> album_of_item(
                kept_items(items@)[i],
                #[trigger] final(self).albums@[old(self).albums@.len() + i],
            ),
    {
        let mut page = map_artist_albums(items);
        proof { lemma_kept_items_len(items@); }
        let n = page.len();
        let ghost before = self.albums@;
        let ghost added = page@;
        self.albums.append(&mut page);
        assert(self.albums@.take(before.len() as int) =~= before);
        assert forall|i: int| 0 <= i < added.len() implies #[trigger] self.albums@[before.len() + i] == added[i] by {}
        self.offset = self.offset + n;
        if self.offset >= total || n == 0 {
            None
        } else {
            Some(self.offset)
        }
    }

    /// The gathered albums, newest first and without repeated ids.
    pub fn finish(self) -> (albums: Vec<Album>)
        ensures
            exists|s: Seq<Album>| stable_sort_of(self.albums@, s) && albums@ == dedup_ids(s),
    {
        let mut albums = self.albums;
        sort_and_dedup_albums(&mut albums);
        albums
    }
}

proof fn lemma_kept_items_len(items: Seq<ArtistAlbumItem>)
    ensures
        kept_items(items).len() <= items.len(),
    decreases items.len(),
{
    if items.len() > 0 {
        lemma_kept_items_len(items.drop_last());
    }
}

} // verus!
