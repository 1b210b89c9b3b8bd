//! The artist page: an artist and their albums.
use vstd::prelude::*;

use crate::messages::{Album, clone_albums, clone_opt_string, opt_view};
use crate::text::concat3;
use crate::ui::events::ArtistEvent;
use crate::ui::model_data::CenterPage;

verus! {

/// Work that the shell carries out after the state changed.
#[derive(Debug)]
pub enum ArtistAction {
    NavigateTo(CenterPage),
    FetchAlbumTracks(Album),
}

/// The artist part of the interface.
#[derive(Debug)]
pub struct ArtistState {
    pub status: String,
    pub artist_id: Option<String>,
    pub artist_name: String,
    pub artist_image_key: Option<String>,
    pub artist_albums: Vec<Album>,
}

/// The mathematical value of an `ArtistState`.
#[verifier::ext_equal]
pub struct ArtistModel {
    pub status: Seq<char>,
    pub id: Option<Seq<char>>,
    pub name: Seq<char>,
    pub image_key: Option<Seq<char>>,
    pub albums: Seq<Album>,
}

impl View for ArtistState {
    type V = ArtistModel;

    open spec fn view(&self) -> ArtistModel {
        ArtistModel {
            status: self.status@,
            id: opt_view(self.artist_id),
            name: self.artist_name@,
            image_key: opt_view(self.artist_image_key),
            albums: self.artist_albums@,
        }
    }
}

/// The effect of every artist event.
pub open spec fn artist_step(m: ArtistModel, e: ArtistEvent) -> (ArtistModel, Seq<ArtistAction>) {
    match e {
        ArtistEvent::ArtistView { id, name, image_key, albums } => (ArtistModel {
            id: Some(id@),
            name: name@,
            image_key: opt_view(image_key),
            albums: albums@,
            ..m
        }, Seq::empty()),
        ArtistEvent::ArtistAlbumSelected(i) => {
            if i >= m.albums.len() {
                (ArtistModel { status: "Selected artist album is unavailable."@, ..m }, Seq::empty())
            } else {
                let a = m.albums[i as int];
                (ArtistModel { status: "Loading tracks for '"@ + a.name@ + "'..."@, ..m },
                    seq![ArtistAction::NavigateTo(CenterPage::AlbumTracks), ArtistAction::FetchAlbumTracks(a)])
            }
        },
    }
}

impl ArtistState {
    /// An empty artist page.
    pub fn new() -> (s: Self)
        ensures
            s@ == (ArtistModel {
                status: Seq::empty(),
                id: None,
                name: Seq::empty(),
                image_key: None,
                albums: Seq::empty(),
            }),
    {
        ArtistState {
            status: String::new(),
            artist_id: None,
            artist_name: String::new(),
            artist_image_key: None,
            artist_albums: Vec::new(),
        }
    }

    /// Handles one artist event and returns the work it asks for.
    pub fn event(&mut self, event: &ArtistEvent) -> (actions: Vec<ArtistAction>)
        ensures
            final(self)@ == artist_step(old(self)@, *event).0,
            actions@ == artist_step(old(self)@, *event).1,
    {
        let ghost m = self@;
        let actions: Vec<ArtistAction> = match event {
            ArtistEvent::ArtistView { id, name, image_key, albums } => {
                self.artist_id = Some(id.clone());
                self.artist_name = name.clone();
                self.artist_image_key = clone_opt_string(image_key);
                self.artist_albums = clone_albums(albums);
                Vec::new()
            },
            ArtistEvent::ArtistAlbumSelected(i) => {
                if *i >= self.artist_albums.len() {
                    self.status = crate::text::owned("Selected artist album is unavailable.");
                    Vec::new()
                } else {
                    let a = self.artist_albums[*i].clone();
                    self.status = concat3("Loading tracks for '", a.name.as_str(), "'...");
                    vec![ArtistAction::NavigateTo(CenterPage::AlbumTracks), ArtistAction::FetchAlbumTracks(a)]
                }
            },
        };
        assert(self@ =~= artist_step(m, *event).0);
        actions
    }
}

} // verus!
