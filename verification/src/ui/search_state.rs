//! The search page: the query, the three result lists and the selection.
use vstd::prelude::*;
use vstd::string::StringExecFns;

use crate::messages::{Album, Artist, Track, clone_albums, clone_opt_string, opt_view};
use crate::text::{concat3, decimal, str_eq, trim, trim_str, u64_to_decimal};
use crate::ui::events::{
    AlbumTracksData, AlbumTracksView, SearchEvent, SearchResultsView, clone_results, results_view,
};
use crate::messages::SearchResultsData;
use crate::ui::model_data::CenterPage;

verus! {

/// Work that the shell carries out after the state changed.
#[derive(Debug)]
pub enum SearchAction {
    NavigateTo(CenterPage),
    CancelSearchTask,
    CancelArtistTask,
    CancelAlbumTask,
    SearchTracks(String),
    HydrateSearchArtwork(SearchResultsData),
    FetchAlbumTracks(Album),
    HydrateAlbumArtwork(AlbumTracksData),
    HydrateArtistArtwork { id: String, name: String, image_url: Option<String>, albums: Vec<Album> },
    FetchArtistView(String),
    FetchArtistViewFromTrack(String),
    FetchAlbumFromTrack(String),
    AddToQueue(Vec<Track>),
}

/// The mathematical value of a `SearchAction`.
pub enum SearchActionView {
    NavigateTo(CenterPage),
    CancelSearchTask,
    CancelArtistTask,
    CancelAlbumTask,
    SearchTracks(Seq<char>),
    HydrateSearchArtwork(SearchResultsView),
    FetchAlbumTracks(Album),
    HydrateAlbumArtwork(AlbumTracksView),
    HydrateArtistArtwork { id: Seq<char>, name: Seq<char>, image_url: Option<Seq<char>>, albums: Seq<Album> },
    FetchArtistView(Seq<char>),
    FetchArtistViewFromTrack(Seq<char>),
    FetchAlbumFromTrack(Seq<char>),
    AddToQueue(Seq<Track>),
}

impl View for SearchAction {
    type V = SearchActionView;

    open spec fn view(&self) -> SearchActionView {
        match self {
            SearchAction::NavigateTo(p) => SearchActionView::NavigateTo(*p),
            SearchAction::CancelSearchTask => SearchActionView::CancelSearchTask,
            SearchAction::CancelArtistTask => SearchActionView::CancelArtistTask,
            SearchAction::CancelAlbumTask => SearchActionView::CancelAlbumTask,
            SearchAction::SearchTracks(q) => SearchActionView::SearchTracks(q@),
            SearchAction::HydrateSearchArtwork(r) => SearchActionView::HydrateSearchArtwork(results_view(*r)),
            SearchAction::FetchAlbumTracks(a) => SearchActionView::FetchAlbumTracks(*a),
            SearchAction::HydrateAlbumArtwork(d) => SearchActionView::HydrateAlbumArtwork(d@),
            SearchAction::HydrateArtistArtwork { id, name, image_url, albums } => SearchActionView::HydrateArtistArtwork {
                id: id@,
                name: name@,
                image_url: opt_view(*image_url),
                albums: albums@,
            },
            SearchAction::FetchArtistView(id) => SearchActionView::FetchArtistView(id@),
            SearchAction::FetchArtistViewFromTrack(id) => SearchActionView::FetchArtistViewFromTrack(id@),
            SearchAction::FetchAlbumFromTrack(id) => SearchActionView::FetchAlbumFromTrack(id@),
            SearchAction::AddToQueue(t) => SearchActionView::AddToQueue(t@),
        }
    }
}

/// The views of a list of actions.
pub open spec fn search_actions_view(a: Seq<SearchAction>) -> Seq<SearchActionView> {
    a.map_values(|x: SearchAction| x@)
}

/// The search part of the interface.
#[derive(Debug)]
pub struct SearchState {
    pub selected_search_tab: usize,
    pub status: String,
    pub search_input: String,
    pub search_result_rows: Vec<Track>,
    pub search_artist_rows: Vec<Artist>,
    pub search_album_rows: Vec<Album>,
    pub current_artist_id: Option<String>,
    pub current_artist_albums: Vec<Album>,
    pub selected_index: usize,
    pub selected_summary: String,
}

/// The mathematical value of a `SearchState`.
#[verifier::ext_equal]
pub struct SearchModel {
    pub tab: usize,
    pub status: Seq<char>,
    pub input: Seq<char>,
    pub tracks: Seq<Track>,
    pub artists: Seq<Artist>,
    pub albums: Seq<Album>,
    pub current_artist_id: Option<Seq<char>>,
    pub current_artist_albums: Seq<Album>,
    pub selected_index: usize,
    pub summary: Seq<char>,
}

impl View for SearchState {
    type V = SearchModel;

    open spec fn view(&self) -> SearchModel {
        SearchModel {
            tab: self.selected_search_tab,
            status: self.status@,
            input: self.search_input@,
            tracks: self.search_result_rows@,
            artists: self.search_artist_rows@,
            albums: self.search_album_rows@,
            current_artist_id: opt_view(self.current_artist_id),
            current_artist_albums: self.current_artist_albums@,
            selected_index: self.selected_index,
            summary: self.selected_summary@,
        }
    }
}

/// The ids of a track list.
pub open spec fn track_ids(tracks: Seq<Track>) -> Seq<Seq<char>> {
    tracks.map_values(|t: Track| t.id@)
}

/// The selection kept inside the list, and the summary line that describes it.
pub open spec fn summarized(m: SearchModel) -> SearchModel {
    if m.tracks.len() == 0 {
        SearchModel { summary: "Selected: none"@, selected_index: 0, ..m }
    } else {
        let idx: usize = if m.selected_index < m.tracks.len() { m.selected_index } else { (m.tracks.len() - 1) as usize };
        let t = m.tracks[idx as int];
        SearchModel {
            selected_index: idx,
            summary: "Selected #"@ + decimal((idx + 1) as nat) + ": "@ + t.name@ + " - "@ + t.artist@,
            ..m
        }
    }
}

/// The effect of every search event.
pub open spec fn search_step(m: SearchModel, e: SearchEvent) -> (SearchModel, Seq<SearchActionView>) {
    match e {
        SearchEvent::Results(r) => {
            let same = track_ids(m.tracks) == track_ids(r.tracks@);
            let m1 = SearchModel { tracks: r.tracks@, artists: r.artists@, albums: r.albums@, ..m };
            let m2 = if same { m1 } else { SearchModel { selected_index: 0, ..m1 } };
            (summarized(m2), Seq::empty())
        },
        SearchEvent::HydrateArtwork(r) => (m, seq![SearchActionView::CancelSearchTask, SearchActionView::HydrateSearchArtwork(results_view(r))]),
        SearchEvent::LoadAlbumTracks(a) => (SearchModel { status: "Loading tracks for '"@ + a.name@ + "'..."@, ..m },
            seq![SearchActionView::CancelAlbumTask, SearchActionView::FetchAlbumTracks(a)]),
        SearchEvent::HydrateAlbumArtwork(d) => (m, seq![SearchActionView::CancelAlbumTask, SearchActionView::HydrateAlbumArtwork(d@)]),
        SearchEvent::HydrateArtistArtwork { id, name, image_url, albums } => (m, seq![
            SearchActionView::CancelArtistTask,
            SearchActionView::HydrateArtistArtwork { id: id@, name: name@, image_url: opt_view(image_url), albums: albums@ },
        ]),
        SearchEvent::SelectTab(i) => (SearchModel { tab: i, ..m }, Seq::empty()),
        SearchEvent::SelectTrack(i) => {
            if i >= m.tracks.len() {
                (SearchModel { status: "Selected search result is unavailable."@, ..m }, Seq::empty())
            } else {
                (m, seq![SearchActionView::AddToQueue(seq![m.tracks[i as int]])])
            }
        },
        SearchEvent::SelectArtist(i) => {
            if i >= m.artists.len() {
                (SearchModel { status: "Selected artist is unavailable."@, ..m }, Seq::empty())
            } else {
                let a = m.artists[i as int];
                if m.current_artist_id == Some(a.id@) && m.current_artist_albums.len() > 0 {
                    (SearchModel { status: "Showing cached albums for '"@ + a.name@ + "'"@, ..m },
                        seq![SearchActionView::NavigateTo(CenterPage::Artist)])
                } else {
                    (SearchModel { status: "Loading albums for '"@ + a.name@ + "'..."@, ..m },
                        seq![SearchActionView::NavigateTo(CenterPage::Artist), SearchActionView::CancelArtistTask,
                             SearchActionView::FetchArtistView(a.id@)])
                }
            }
        },
        SearchEvent::SelectAlbum(i) => {
            if i >= m.albums.len() {
                (SearchModel { status: "Selected album is unavailable."@, ..m }, Seq::empty())
            } else {
                let a = m.albums[i as int];
                (SearchModel { status: "Loading tracks for '"@ + a.name@ + "'..."@, ..m },
                    seq![SearchActionView::NavigateTo(CenterPage::AlbumTracks), SearchActionView::CancelAlbumTask,
                         SearchActionView::FetchAlbumTracks(a)])
            }
        },
        SearchEvent::OpenAlbumFromTrack(id) => (SearchModel { status: "Loading album..."@, ..m },
            seq![SearchActionView::NavigateTo(CenterPage::AlbumTracks), SearchActionView::CancelAlbumTask,
                 SearchActionView::FetchAlbumFromTrack(id@)]),
        SearchEvent::OpenArtistFromTrack(id) => (SearchModel { status: "Loading artist from current track..."@, ..m },
            seq![SearchActionView::NavigateTo(CenterPage::Artist), SearchActionView::CancelArtistTask,
                 SearchActionView::FetchArtistViewFromTrack(id@)]),
        SearchEvent::SetInput(v) => (SearchModel { input: v@, ..m }, Seq::empty()),
        SearchEvent::SubmitQuery(q) => {
            let t = trim(q@);
            if t.len() == 0 {
                (SearchModel { status: "Enter a search query first."@, ..m }, Seq::empty())
            } else {
                (SearchModel { status: "Searching for '"@ + t + "'..."@, ..m },
                    seq![SearchActionView::NavigateTo(CenterPage::Search), SearchActionView::CancelSearchTask,
                         SearchActionView::SearchTracks(t)])
            }
        },
    }
}

fn lit(s: &str) -> (out: String)
    ensures
        out@ == s@,
{
    String::from_str(s)
}

fn same_track_ids(a: &Vec<Track>, b: &Vec<Track>) -> (same: bool)
    ensures
        same == (track_ids(a@) == track_ids(b@)),
{
    if a.len() != b.len() {
        assert(track_ids(a@).len() != track_ids(b@).len());
        return false;
    }
    let mut i: usize = 0;
    while i < a.len()
        invariant
            a.len() == b.len(),
            i <= a.len(),
            forall|j: int| 0 <= j < i ==> a@[j].id@ == b@[j].id@,
        decreases a.len() - i,
    {
        if !str_eq(a[i].id.as_str(), b[i].id.as_str()) {
            assert(track_ids(a@)[i as int] != track_ids(b@)[i as int]);
            return false;
        }
        i += 1;
    }
    assert(track_ids(a@) =~= track_ids(b@));
    true
}

impl SearchState {
    /// A fresh state: no query, no results.
    pub fn new() -> (s: Self)
        ensures
            s@.tracks.len() == 0 && s@.artists.len() == 0 && s@.albums.len() == 0,
            s@.selected_index == 0,
            s@.tab == 0,
            s@.summary == "Selected: none"@,
    {
        SearchState {
            selected_search_tab: 0,
            status: String::new(),
            search_input: String::new(),
            search_result_rows: Vec::new(),
            search_artist_rows: Vec::new(),
            search_album_rows: Vec::new(),
            current_artist_id: None,
            current_artist_albums: Vec::new(),
            selected_index: 0,
            selected_summary: lit("Selected: none"),
        }
    }

    /// The labels of the result tabs.
    pub fn search_tabs() -> (tabs: Vec<String>)
        ensures
            tabs@.len() == 3,
            tabs@[0]@ == "Songs"@,
            tabs@[1]@ == "Artists"@,
            tabs@[2]@ == "Albums"@,
    {
        vec![lit("Songs"), lit("Artists"), lit("Albums")]
    }

    /// Keeps the selection inside the track list and describes it.
    pub fn refresh_selected_summary(&mut self)
        ensures
            final(self)@ == summarized(old(self)@),
    {
        let len = self.search_result_rows.len();
        if len == 0 {
            self.selected_summary = lit("Selected: none");
            self.selected_index = 0;
            return;
        }
        let idx = if self.selected_index < len { self.selected_index } else { len - 1 };
        self.selected_index = idx;
        let n = u64_to_decimal((idx as u64) + 1);
        let t = &self.search_result_rows[idx];
        let mut s = concat3("Selected #", n.as_str(), ": ");
        s.append(t.name.as_str());
        s.append(" - ");
        s.append(t.artist.as_str());
        self.selected_summary = s;
    }

    /// Replaces the three result lists.
    pub fn set_search_results(&mut self, tracks: Vec<Track>, artists: Vec<Artist>, albums: Vec<Album>)
        ensures
            final(self)@ == (SearchModel { tracks: tracks@, artists: artists@, albums: albums@, ..old(self)@ }),
    {
        self.search_result_rows = tracks;
        self.search_artist_rows = artists;
        self.search_album_rows = albums;
    }

    /// Handles one search event and returns the work it asks for.
    pub fn event(&mut self, event: &SearchEvent) -> (actions: Vec<SearchAction>)
        ensures
            final(self)@ == search_step(old(self)@, *event).0,
            search_actions_view(actions@) == search_step(old(self)@, *event).1,
    {
        let ghost m = self@;
        let ghost e = *event;
        let actions: Vec<SearchAction> = match event {
            SearchEvent::Results(r) => {
                let same = same_track_ids(&self.search_result_rows, &r.tracks);
                let c = clone_results(r);
                self.set_search_results(c.tracks, c.artists, c.albums);
                if !same {
                    self.selected_index = 0;
                }
                self.refresh_selected_summary();
                Vec::new()
            },
            SearchEvent::HydrateArtwork(r) => vec![SearchAction::CancelSearchTask, SearchAction::HydrateSearchArtwork(clone_results(r))],
            SearchEvent::LoadAlbumTracks(a) => {
                self.status = concat3("Loading tracks for '", a.name.as_str(), "'...");
                vec![SearchAction::CancelAlbumTask, SearchAction::FetchAlbumTracks(a.clone())]
            },
            SearchEvent::HydrateAlbumArtwork(d) => vec![SearchAction::CancelAlbumTask, SearchAction::HydrateAlbumArtwork(d.duplicate())],
            SearchEvent::HydrateArtistArtwork { id, name, image_url, albums } => vec![
                SearchAction::CancelArtistTask,
                SearchAction::HydrateArtistArtwork {
                    id: id.clone(),
                    name: name.clone(),
                    image_url: clone_opt_string(image_url),
                    albums: clone_albums(albums),
                },
            ],
            SearchEvent::SelectTab(i) => {
                self.selected_search_tab = *i;
                Vec::new()
            },
            SearchEvent::SelectTrack(i) => {
                if *i >= self.search_result_rows.len() {
                    self.status = lit("Selected search result is unavailable.");
                    Vec::new()
                } else {
                    let one = vec![self.search_result_rows[*i].clone()];
                    assert(one@ =~= seq![m.tracks[*i as int]]);
                    vec![SearchAction::AddToQueue(one)]
                }
            },
            SearchEvent::SelectArtist(i) => {
                if *i >= self.search_artist_rows.len() {
                    self.status = lit("Selected artist is unavailable.");
                    Vec::new()
                } else {
                    let a = self.search_artist_rows[*i].clone();
                    let cached = match &self.current_artist_id {
                        Some(c) => str_eq(c.as_str(), a.id.as_str()),
                        None => false,
                    };
                    if cached && self.current_artist_albums.len() > 0 {
                        self.status = concat3("Showing cached albums for '", a.name.as_str(), "'");
                        vec![SearchAction::NavigateTo(CenterPage::Artist)]
                    } else {
                        self.status = concat3("Loading albums for '", a.name.as_str(), "'...");
                        vec![SearchAction::NavigateTo(CenterPage::Artist), SearchAction::CancelArtistTask, SearchAction::FetchArtistView(a.id)]
                    }
                }
            },
            SearchEvent::SelectAlbum(i) => {
                if *i >= self.search_album_rows.len() {
                    self.status = lit("Selected album is unavailable.");
                    Vec::new()
                } else {
                    let a = self.search_album_rows[*i].clone();
                    self.status = concat3("Loading tracks for '", a.name.as_str(), "'...");
                    vec![SearchAction::NavigateTo(CenterPage::AlbumTracks), SearchAction::CancelAlbumTask, SearchAction::FetchAlbumTracks(a)]
                }
            },
            SearchEvent::OpenAlbumFromTrack(id) => {
                self.status = lit("Loading album...");
                vec![SearchAction::NavigateTo(CenterPage::AlbumTracks), SearchAction::CancelAlbumTask, SearchAction::FetchAlbumFromTrack(id.clone())]
            },
            SearchEvent::OpenArtistFromTrack(id) => {
                self.status = lit("Loading artist from current track...");
                vec![SearchAction::NavigateTo(CenterPage::Artist), SearchAction::CancelArtistTask, SearchAction::FetchArtistViewFromTrack(id.clone())]
            },
            SearchEvent::SetInput(v) => {
                self.search_input = v.clone();
                Vec::new()
            },
            SearchEvent::SubmitQuery(q) => {
                let t = trim_str(q.as_str());
                proof { crate::text::lemma_trim_idempotent(q@); }
                if crate::text::is_blank(t.as_str()) {
                    self.status = lit("Enter a search query first.");
                    Vec::new()
                } else {
                    self.status = concat3("Searching for '", t.as_str(), "'...");
                    vec![SearchAction::NavigateTo(CenterPage::Search), SearchAction::CancelSearchTask, SearchAction::SearchTracks(t)]
                }
            },
        };
        assert(self@ =~= search_step(m, e).0);
        assert(search_actions_view(actions@) =~= search_step(m, e).1);
        actions
    }
}

/// A new result list with the same tracks keeps the selection (moved inside
/// the list); different tracks reset it to the first.
pub proof fn law_results_keep_selection_for_same_tracks(m: SearchModel, r: SearchResultsData)
    ensures
        ({
            let m2 = search_step(m, SearchEvent::Results(r)).0;
            &&& track_ids(m.tracks) != track_ids(r.tracks@) ==> m2.selected_index == 0
            &&& (track_ids(m.tracks) == track_ids(r.tracks@) && m.selected_index < r.tracks@.len()) ==> m2.selected_index == m.selected_index
            &&& (r.tracks@.len() > 0 ==> m2.selected_index < r.tracks@.len())
        }),
{
}

} // verus!
