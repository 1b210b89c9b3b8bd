//! The album page: an album's tracks and its play / shuffle controls.
use vstd::prelude::*;

use crate::messages::{Track, clone_opt_string, clone_tracks, opt_view};
use crate::ui::events::AlbumEvent;

verus! {

/// Work that the shell carries out after the state changed.
#[derive(Debug)]
pub enum AlbumAction {
    AddToQueue(Vec<Track>),
    ShuffleQueue,
}

/// The album part of the interface.
#[derive(Debug)]
pub struct AlbumState {
    pub album_tracks: Vec<Track>,
    pub album_name: String,
    pub album_artist: String,
    pub album_release_year: Option<u32>,
    pub album_track_count: usize,
    pub album_total_duration_ms: u64,
    pub album_image_key: Option<String>,
    pub album_selected_index: usize,
    pub album_shuffle_mode: bool,
}

/// The mathematical value of an `AlbumState`.
#[verifier::ext_equal]
pub struct AlbumModel {
    pub tracks: Seq<Track>,
    pub name: Seq<char>,
    pub artist: Seq<char>,
    pub release_year: Option<u32>,
    pub track_count: usize,
    pub total_duration_ms: u64,
    pub image_key: Option<Seq<char>>,
    pub selected_index: usize,
    pub shuffle_mode: bool,
}

impl View for AlbumState {
    type V = AlbumModel;

    open spec fn view(&self) -> AlbumModel {
        AlbumModel {
            tracks: self.album_tracks@,
            name: self.album_name@,
            artist: self.album_artist@,
            release_year: self.album_release_year,
            track_count: self.album_track_count,
            total_duration_ms: self.album_total_duration_ms,
            image_key: opt_view(self.album_image_key),
            selected_index: self.album_selected_index,
            shuffle_mode: self.album_shuffle_mode,
        }
    }
}

/// The queue work an album event asks for.
pub enum AlbumActionView {
    AddToQueue(Seq<Track>),
    ShuffleQueue,
}

impl View for AlbumAction {
    type V = AlbumActionView;

    open spec fn view(&self) -> AlbumActionView {
        match self {
            AlbumAction::AddToQueue(t) => AlbumActionView::AddToQueue(t@),
            AlbumAction::ShuffleQueue => AlbumActionView::ShuffleQueue,
        }
    }
}

/// The effect of every album event.
pub open spec fn album_step(m: AlbumModel, e: AlbumEvent) -> (AlbumModel, Seq<AlbumActionView>) {
    match e {
        AlbumEvent::AlbumTracks(d) => (AlbumModel {
            name: d.name@,
            artist: d.artist@,
            release_year: d.release_year,
            track_count: d.track_count,
            total_duration_ms: d.total_duration_ms,
            image_key: opt_view(d.image_key),
            tracks: d.tracks@,
            selected_index: 0,
            ..m
        }, Seq::empty()),
        AlbumEvent::AlbumTrackSelected(i) => {
            if i >= m.tracks.len() {
                (m, Seq::empty())
            } else {
                (m, seq![AlbumActionView::AddToQueue(seq![m.tracks[i as int]])])
            }
        },
        AlbumEvent::PlayAlbum => {
            if m.tracks.len() == 0 {
                (m, Seq::empty())
            } else if m.shuffle_mode {
                (m, seq![AlbumActionView::AddToQueue(m.tracks), AlbumActionView::ShuffleQueue])
            } else {
                (m, seq![AlbumActionView::AddToQueue(m.tracks)])
            }
        },
        AlbumEvent::ToggleShuffleAlbum => (AlbumModel { shuffle_mode: !m.shuffle_mode, ..m }, Seq::empty()),
    }
}

impl AlbumState {
    /// An empty album page.
    pub fn new() -> (s: Self)
        ensures
            s@ == (AlbumModel {
                tracks: Seq::empty(),
                name: Seq::empty(),
                artist: Seq::empty(),
                release_year: None,
                track_count: 0,
                total_duration_ms: 0,
                image_key: None,
                selected_index: 0,
                shuffle_mode: false,
            }),
    {
        AlbumState {
            album_tracks: Vec::new(),
            album_name: String::new(),
            album_artist: String::new(),
            album_release_year: None,
            album_track_count: 0,
            album_total_duration_ms: 0,
            album_image_key: None,
            album_selected_index: 0,
            album_shuffle_mode: false,
        }
    }

    /// Handles one album event and returns the work it asks for.
    pub fn event(&mut self, event: &AlbumEvent) -> (actions: Vec<AlbumAction>)
        ensures
            final(self)@ == album_step(old(self)@, *event).0,
            actions@.map_values(|a: AlbumAction| a@) == album_step(old(self)@, *event).1,
    {
        let ghost m = self@;
        let actions: Vec<AlbumAction> = match event {
            AlbumEvent::AlbumTracks(d) => {
                self.album_name = d.name.clone();
                self.album_artist = d.artist.clone();
                self.album_release_year = d.release_year;
                self.album_track_count = d.track_count;
                self.album_total_duration_ms = d.total_duration_ms;
                self.album_image_key = clone_opt_string(&d.image_key);
                self.album_tracks = clone_tracks(&d.tracks);
                self.album_selected_index = 0;
                Vec::new()
            },
            AlbumEvent::AlbumTrackSelected(i) => {
                if *i >= self.album_tracks.len() {
                    Vec::new()
                } else {
                    let one = vec![self.album_tracks[*i].clone()];
                    assert(one@ =~= seq![m.tracks[*i as int]]);
                    vec![AlbumAction::AddToQueue(one)]
                }
            },
            AlbumEvent::PlayAlbum => {
                if self.album_tracks.len() == 0 {
                    Vec::new()
                } else if self.album_shuffle_mode {
                    vec![AlbumAction::AddToQueue(clone_tracks(&self.album_tracks)), AlbumAction::ShuffleQueue]
                } else {
                    vec![AlbumAction::AddToQueue(clone_tracks(&self.album_tracks))]
                }
            },
            AlbumEvent::ToggleShuffleAlbum => {
                self.album_shuffle_mode = !self.album_shuffle_mode;
                Vec::new()
            },
        };
        assert(self@ =~= album_step(m, *event).0);
        assert(actions@.map_values(|a: AlbumAction| a@) =~= album_step(m, *event).1);
        actions
    }
}

} // verus!
