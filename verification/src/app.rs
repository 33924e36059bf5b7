//! The application surface that the navigation core reads and writes: the
//! artist view's state, the shared track table, the current route, and the
//! log of fire-and-forget requests handed to external collaborators.
//!
//! The core never performs the outside work itself: starting playback, fetching an
//! album's tracks and navigating to another artist are recorded as plain
//! [`OutboundRequest`] values, in the order they were issued, and an external
//! collaborator performs them asynchronously.

use vstd::prelude::*;

use crate::focus::ArtistBlock;

verus! {

/// One track of the selected artist's top-track list.
#[derive(Clone, Debug, PartialEq, Eq)]
pub struct Track {
    pub uri: String,
    pub name: String,
}

/// One album of the selected artist.
#[derive(Clone, Debug, PartialEq, Eq)]
pub struct Album {
    pub id: String,
    pub name: String,
}

/// One artist related to the selected artist.
#[derive(Clone, Debug, PartialEq, Eq)]
pub struct RelatedArtist {
    pub id: String,
    pub name: String,
}

/// The mathematical value of a [`Track`].
#[verifier::ext_equal]
pub struct TrackModel {
    pub uri: Seq<char>,
    pub name: Seq<char>,
}

/// The mathematical value of an [`Album`].
#[verifier::ext_equal]
pub struct AlbumModel {
    pub id: Seq<char>,
    pub name: Seq<char>,
}

/// The mathematical value of a [`RelatedArtist`].
#[verifier::ext_equal]
pub struct RelatedArtistModel {
    pub id: Seq<char>,
    pub name: Seq<char>,
}

impl View for Track {
    type V = TrackModel;

    open spec fn view(&self) -> TrackModel {
        TrackModel { uri: self.uri@, name: self.name@ }
    }
}

impl View for Album {
    type V = AlbumModel;

    open spec fn view(&self) -> AlbumModel {
        AlbumModel { id: self.id@, name: self.name@ }
    }
}

impl View for RelatedArtist {
    type V = RelatedArtistModel;

    open spec fn view(&self) -> RelatedArtistModel {
        RelatedArtistModel { id: self.id@, name: self.name@ }
    }
}

/// The values of a sequence of tracks.
pub open spec fn view_tracks(ts: Seq<Track>) -> Seq<TrackModel> {
    ts.map_values(|t: Track| t@)
}

/// The values of a sequence of albums.
pub open spec fn view_albums(xs: Seq<Album>) -> Seq<AlbumModel> {
    xs.map_values(|a: Album| a@)
}

/// The values of a sequence of related artists.
pub open spec fn view_related_artists(xs: Seq<RelatedArtist>) -> Seq<RelatedArtistModel> {
    xs.map_values(|a: RelatedArtist| a@)
}

/// Which context the shared track table is showing.
#[derive(Clone, Copy, Debug, PartialEq, Eq, Structural)]
pub enum TrackTableContext {
    AlbumSearch,
}

/// The shared track table; the navigation core only tags its context.
#[derive(Clone, Copy, Debug, PartialEq, Eq, Structural)]
pub struct TrackTable {
    pub context: Option<TrackTableContext>,
}

/// Which top-level block of the enclosing application is active or hovered.
#[derive(Clone, Copy, Debug, PartialEq, Eq, Structural)]
pub enum ActiveBlock {
    Empty,
    Library,
    Artist,
}

/// The route descriptor: which top-level block is active, and which is
/// hovered, after the last input was handled.
#[derive(Clone, Copy, Debug, PartialEq, Eq, Structural)]
pub struct Route {
    pub active_block: ActiveBlock,
    pub hovered_block: ActiveBlock,
}

/// One fire-and-forget request handed to an external collaborator. The core
/// records the request and returns immediately; the collaborator acts on it
/// asynchronously and writes any result back into shared state on its own.
#[derive(Clone, Debug, PartialEq, Eq)]
pub enum OutboundRequest {
    /// Start playback of `track_uris` at `starting_index`, optionally inside
    /// a playback context.
    StartPlayback {
        context_id: Option<String>,
        track_uris: Option<Vec<String>>,
        starting_index: Option<usize>,
    },
    /// Fetch the track listing of `album`; the result populates the shared
    /// track table under the `AlbumSearch` context.
    FetchAlbumTracks { album: Album },
    /// Navigate to a freshly created artist view for this artist.
    NavigateToArtist { artist_id: String, artist_name: String },
}

/// The mathematical value of an [`OutboundRequest`].
#[verifier::ext_equal]
pub enum RequestModel {
    StartPlayback {
        context_id: Option<Seq<char>>,
        track_uris: Option<Seq<Seq<char>>>,
        starting_index: Option<usize>,
    },
    FetchAlbumTracks { album: AlbumModel },
    NavigateToArtist { artist_id: Seq<char>, artist_name: Seq<char> },
}

impl View for OutboundRequest {
    type V = RequestModel;

    open spec fn view(&self) -> RequestModel {
        match self {
            OutboundRequest::StartPlayback { context_id, track_uris, starting_index } => {
                RequestModel::StartPlayback {
                    context_id: match context_id {
                        Some(s) => Some(s@),
                        None => None,
                    },
                    track_uris: match track_uris {
                        Some(v) => Some(v@.map_values(|s: String| s@)),
                        None => None,
                    },
                    starting_index: *starting_index,
                }
            },
            OutboundRequest::FetchAlbumTracks { album } => {
                RequestModel::FetchAlbumTracks { album: album@ }
            },
            OutboundRequest::NavigateToArtist { artist_id, artist_name } => {
                RequestModel::NavigateToArtist { artist_id: artist_id@, artist_name: artist_name@ }
            },
        }
    }
}

/// The values of the request log, oldest first.
pub open spec fn view_requests(rs: Seq<OutboundRequest>) -> Seq<RequestModel> {
    rs.map_values(|r: OutboundRequest| r@)
}

/// The artist view: its three pane lists, the two-phase focus state over
/// them, and one highlight cursor per pane.
///
/// `artist_hovered_block` is never `Empty` while the view is on screen;
/// `artist_selected_block == Empty` means navigation mode (input moves the
/// hover), any other value means selection mode (input moves that pane's
/// cursor). A cursor of `None` means nothing has been highlighted yet.
#[derive(Clone, Debug, PartialEq, Eq)]
pub struct ArtistView {
    pub artist_hovered_block: ArtistBlock,
    pub artist_selected_block: ArtistBlock,
    pub top_tracks: Vec<Track>,
    pub albums: Vec<Album>,
    pub related_artists: Vec<RelatedArtist>,
    pub selected_top_track_index: Option<usize>,
    pub selected_album_index: Option<usize>,
    pub selected_related_artist_index: Option<usize>,
}

/// The mathematical value of an [`ArtistView`].
#[verifier::ext_equal]
pub struct ArtistViewModel {
    pub artist_hovered_block: ArtistBlock,
    pub artist_selected_block: ArtistBlock,
    pub top_tracks: Seq<TrackModel>,
    pub albums: Seq<AlbumModel>,
    pub related_artists: Seq<RelatedArtistModel>,
    pub selected_top_track_index: Option<usize>,
    pub selected_album_index: Option<usize>,
    pub selected_related_artist_index: Option<usize>,
}

impl View for ArtistView {
    type V = ArtistViewModel;

    open spec fn view(&self) -> ArtistViewModel {
        ArtistViewModel {
            artist_hovered_block: self.artist_hovered_block,
            artist_selected_block: self.artist_selected_block,
            top_tracks: view_tracks(self.top_tracks@),
            albums: view_albums(self.albums@),
            related_artists: view_related_artists(self.related_artists@),
            selected_top_track_index: self.selected_top_track_index,
            selected_album_index: self.selected_album_index,
            selected_related_artist_index: self.selected_related_artist_index,
        }
    }
}

impl ArtistView {
    /// A freshly instantiated view: navigation mode, hover on the first
    /// pane, nothing highlighted yet in any pane.
    pub fn new(top_tracks: Vec<Track>, albums: Vec<Album>, related_artists: Vec<RelatedArtist>) -> (r:
        ArtistView)
        ensures
            r@ == (ArtistViewModel {
                artist_hovered_block: ArtistBlock::TopTracks,
                artist_selected_block: ArtistBlock::Empty,
                top_tracks: view_tracks(top_tracks@),
                albums: view_albums(albums@),
                related_artists: view_related_artists(related_artists@),
                selected_top_track_index: None,
                selected_album_index: None,
                selected_related_artist_index: None,
            }),
    {
        ArtistView {
            artist_hovered_block: ArtistBlock::TopTracks,
            artist_selected_block: ArtistBlock::Empty,
            top_tracks,
            albums,
            related_artists,
            selected_top_track_index: None,
            selected_album_index: None,
            selected_related_artist_index: None,
        }
    }
}

/// The application state the navigation core touches: the artist view (if
/// the view has been populated), the shared track table, the current route,
/// and the log of requests issued to external collaborators.
pub struct App {
    pub artist: Option<ArtistView>,
    pub track_table: TrackTable,
    pub current_route: Route,
    pub requests: Vec<OutboundRequest>,
}

/// The mathematical value of an [`App`].
#[verifier::ext_equal]
pub struct AppModel {
    pub artist: Option<ArtistViewModel>,
    pub track_table: TrackTable,
    pub current_route: Route,
    pub requests: Seq<RequestModel>,
}

impl View for App {
    type V = AppModel;

    open spec fn view(&self) -> AppModel {
        AppModel {
            artist: match self.artist {
                Some(a) => Some(a@),
                None => None,
            },
            track_table: self.track_table,
            current_route: self.current_route,
            requests: view_requests(self.requests@),
        }
    }
}

/// The state a fresh application starts in: no artist view yet, no track
/// table context, the default route, and no request issued.
pub open spec fn spec_new_app() -> AppModel {
    AppModel {
        artist: None,
        track_table: TrackTable { context: None },
        current_route: Route {
            active_block: ActiveBlock::Empty,
            hovered_block: ActiveBlock::Library,
        },
        requests: Seq::empty(),
    }
}

impl App {
    /// A fresh application state.
    pub fn new() -> (r: App)
        ensures
            r@ == spec_new_app(),
    {
        let r = App {
            artist: None,
            track_table: TrackTable { context: None },
            current_route: Route {
                active_block: ActiveBlock::Empty,
                hovered_block: ActiveBlock::Library,
            },
            requests: Vec::new(),
        };
        proof {
            assert(r@ =~= spec_new_app());
        }
        r
    }

    /// The route active after the last handled input; read-only.
    pub fn get_current_route(&self) -> (r: &Route)
        ensures
            *r == self.current_route,
    {
        &self.current_route
    }

    /// Record a playback-start request: play `track_uris` from
    /// `starting_index`, optionally inside the context `context_id`.
    pub fn start_playback(
        &mut self,
        context_id: Option<String>,
        track_uris: Option<Vec<String>>,
        starting_index: Option<usize>,
    )
        ensures
            final(self)@ == (AppModel {
                requests: old(self)@.requests.push(
                    RequestModel::StartPlayback {
                        context_id: match context_id {
                            Some(s) => Some(s@),
                            None => None,
                        },
                        track_uris: match track_uris {
                            Some(v) => Some(v@.map_values(|s: String| s@)),
                            None => None,
                        },
                        starting_index,
                    },
                ),
                ..old(self)@
            }),
    {
        let ghost m = self@;
        let request = OutboundRequest::StartPlayback { context_id, track_uris, starting_index };
        let ghost rm = request@;
        self.requests.push(request);
        proof {
            old(self).requests@.lemma_push_map_commute(|r: OutboundRequest| r@, request);
            assert(self@ =~= (AppModel { requests: m.requests.push(rm), ..m }));
        }
    }

    /// Record a request to fetch `album`'s track listing.
    pub fn get_album_tracks(&mut self, album: Album)
        ensures
            final(self)@ == (AppModel {
                requests: old(self)@.requests.push(
                    RequestModel::FetchAlbumTracks { album: album@ },
                ),
                ..old(self)@
            }),
    {
        let ghost m = self@;
        let request = OutboundRequest::FetchAlbumTracks { album };
        let ghost rm = request@;
        self.requests.push(request);
        proof {
            old(self).requests@.lemma_push_map_commute(|r: OutboundRequest| r@, request);
            assert(self@ =~= (AppModel { requests: m.requests.push(rm), ..m }));
        }
    }

    /// Record a request to open a new artist view for this artist.
    pub fn get_artist(&mut self, artist_id: &str, artist_name: &str)
        ensures
            final(self)@ == (AppModel {
                requests: old(self)@.requests.push(
                    RequestModel::NavigateToArtist {
                        artist_id: artist_id@,
                        artist_name: artist_name@,
                    },
                ),
                ..old(self)@
            }),
    {
        let ghost m = self@;
        let request = OutboundRequest::NavigateToArtist {
            artist_id: artist_id.to_owned(),
            artist_name: artist_name.to_owned(),
        };
        let ghost rm = request@;
        self.requests.push(request);
        proof {
            old(self).requests@.lemma_push_map_commute(|r: OutboundRequest| r@, request);
            assert(self@ =~= (AppModel { requests: m.requests.push(rm), ..m }));
        }
    }
}

/// Delegate a `Left` input to the enclosing navigation context: the view is
/// left, and the application falls back to its default hover target.
pub fn handle_left_event(app: &mut App)
    ensures
        final(app)@ == (AppModel {
            current_route: Route {
                active_block: ActiveBlock::Empty,
                hovered_block: ActiveBlock::Library,
            },
            ..old(app)@
        }),
{
    app.current_route = Route {
        active_block: ActiveBlock::Empty,
        hovered_block: ActiveBlock::Library,
    };
}

} // verus!

