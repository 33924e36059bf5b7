//! The artist view's navigation handler: resolves one logical input against
//! the view's two-phase focus state.
//!
//! In navigation mode (`artist_selected_block == Empty`) directional input
//! moves the hover pointer along the cyclic pane order and `Enter` commits
//! the hover to a selection. In selection mode directional input moves the
//! selected pane's highlight cursor, `Enter` activates the pane's action,
//! and `Esc` (or `Left`) drops back to navigation mode. When the view has no
//! loaded state every input is a no-op.
//!
//! Each exec function's effect is pinned by a spec-level transition function
//! over [`AppModel`], so the whole state machine is stated once, in one
//! place, and the handler is proved to follow it.

use vstd::prelude::*;

use crate::app::{
    ActiveBlock, Album, App, AppModel, ArtistViewModel, OutboundRequest, RequestModel, Route,
    TrackModel, TrackTable, TrackTableContext, handle_left_event,
};
use crate::cursor::{Direction, next_index, spec_next_index};
use crate::event::Key;
use crate::focus::{ArtistBlock, spec_next_block, spec_prev_block};

verus! {

/// The length of the pane's list; `Empty` has no list.
pub open spec fn spec_list_len(a: ArtistViewModel, b: ArtistBlock) -> int {
    match b {
        ArtistBlock::TopTracks => a.top_tracks.len() as int,
        ArtistBlock::Albums => a.albums.len() as int,
        ArtistBlock::RelatedArtists => a.related_artists.len() as int,
        ArtistBlock::Empty => 0,
    }
}

/// The pane's highlight cursor; `Empty` has none.
pub open spec fn spec_cursor(a: ArtistViewModel, b: ArtistBlock) -> Option<usize> {
    match b {
        ArtistBlock::TopTracks => a.selected_top_track_index,
        ArtistBlock::Albums => a.selected_album_index,
        ArtistBlock::RelatedArtists => a.selected_related_artist_index,
        ArtistBlock::Empty => None,
    }
}

/// The view with the pane's highlight cursor replaced; `Empty` is left as is.
pub open spec fn spec_with_cursor(
    a: ArtistViewModel,
    b: ArtistBlock,
    c: Option<usize>,
) -> ArtistViewModel {
    match b {
        ArtistBlock::TopTracks => ArtistViewModel { selected_top_track_index: c, ..a },
        ArtistBlock::Albums => ArtistViewModel { selected_album_index: c, ..a },
        ArtistBlock::RelatedArtists => ArtistViewModel { selected_related_artist_index: c, ..a },
        ArtistBlock::Empty => a,
    }
}

/// A directional step in selection mode: the selected pane's cursor moves
/// one step, reclamped against that pane's current list length. Navigation
/// state, lists, the route and the request log are untouched.
pub open spec fn spec_cursor_step(m: AppModel, direction: Direction) -> AppModel {
    match m.artist {
        None => m,
        Some(a) => match a.artist_selected_block {
            ArtistBlock::Empty => m,
            _ => AppModel {
                artist: Some(
                    spec_with_cursor(
                        a,
                        a.artist_selected_block,
                        spec_next_index(
                            spec_list_len(a, a.artist_selected_block),
                            spec_cursor(a, a.artist_selected_block),
                            direction,
                        ),
                    ),
                ),
                ..m
            },
        },
    }
}

/// A directional step in navigation mode: the hover pointer moves one step
/// along the cyclic pane order (`Down` forward, `Up` backward); a hover of
/// `Empty` has no transitions. Nothing else changes.
pub open spec fn spec_hover_step(m: AppModel, direction: Direction) -> AppModel {
    match m.artist {
        None => m,
        Some(a) => AppModel {
            artist: Some(
                ArtistViewModel {
                    artist_hovered_block: match direction {
                        Direction::Down => spec_next_block(a.artist_hovered_block),
                        Direction::Up => spec_prev_block(a.artist_hovered_block),
                    },
                    ..a
                },
            ),
            ..m
        },
    }
}

/// `Enter` in navigation mode: the hovered pane becomes the selected pane;
/// cursors, lists, the route and the request log are untouched. A hover of
/// `Empty` commits nothing.
pub open spec fn spec_enter_hovered(m: AppModel) -> AppModel {
    match m.artist {
        None => m,
        Some(a) => match a.artist_hovered_block {
            ArtistBlock::Empty => m,
            _ => AppModel {
                artist: Some(ArtistViewModel { artist_selected_block: a.artist_hovered_block, ..a }),
                ..m
            },
        },
    }
}

/// `Enter` in selection mode: the selected pane's activation.
///
/// - `TopTracks`: a playback-start request carrying every top track's URI,
///   in list order, with the current cursor as the starting offset.
/// - `Albums`: if the cursor resolves to an album of the current list, the
///   shared track table is tagged `AlbumSearch` and a fetch request for that
///   album is issued; otherwise nothing happens.
/// - `RelatedArtists`: if the cursor resolves to an artist of the current
///   list, a navigation request for that artist is issued; otherwise nothing
///   happens.
///
/// Activation never changes the focus state or any cursor.
pub open spec fn spec_enter_selected(m: AppModel) -> AppModel {
    match m.artist {
        None => m,
        Some(a) => match a.artist_selected_block {
            ArtistBlock::TopTracks => AppModel {
                requests: m.requests.push(
                    RequestModel::StartPlayback {
                        context_id: None,
                        track_uris: Some(a.top_tracks.map_values(|t: TrackModel| t.uri)),
                        starting_index: a.selected_top_track_index,
                    },
                ),
                ..m
            },
            ArtistBlock::Albums => match a.selected_album_index {
                Some(i) => if i < a.albums.len() {
                    AppModel {
                        track_table: TrackTable { context: Some(TrackTableContext::AlbumSearch) },
                        requests: m.requests.push(
                            RequestModel::FetchAlbumTracks { album: a.albums[i as int] },
                        ),
                        ..m
                    }
                } else {
                    m
                },
                None => m,
            },
            ArtistBlock::RelatedArtists => match a.selected_related_artist_index {
                Some(i) => if i < a.related_artists.len() {
                    AppModel {
                        requests: m.requests.push(
                            RequestModel::NavigateToArtist {
                                artist_id: a.related_artists[i as int].id,
                                artist_name: a.related_artists[i as int].name,
                            },
                        ),
                        ..m
                    }
                } else {
                    m
                },
                None => m,
            },
            ArtistBlock::Empty => m,
        },
    }
}

/// `Left`: selection mode is dropped, and the hover moves one step toward
/// the view's outer boundary; from the outermost pane (`TopTracks`) the
/// input is instead delegated to the enclosing navigation context, leaving
/// the hover untouched.
pub open spec fn spec_left(m: AppModel) -> AppModel {
    match m.artist {
        None => m,
        Some(a) => {
            let dropped = ArtistViewModel { artist_selected_block: ArtistBlock::Empty, ..a };
            match a.artist_hovered_block {
                ArtistBlock::TopTracks => AppModel {
                    artist: Some(dropped),
                    current_route: Route {
                        active_block: ActiveBlock::Empty,
                        hovered_block: ActiveBlock::Library,
                    },
                    ..m
                },
                ArtistBlock::Albums => AppModel {
                    artist: Some(
                        ArtistViewModel { artist_hovered_block: ArtistBlock::TopTracks, ..dropped },
                    ),
                    ..m
                },
                ArtistBlock::RelatedArtists => AppModel {
                    artist: Some(
                        ArtistViewModel { artist_hovered_block: ArtistBlock::Albums, ..dropped },
                    ),
                    ..m
                },
                ArtistBlock::Empty => AppModel { artist: Some(dropped), ..m },
            }
        },
    }
}

/// The whole transition relation of the artist view's navigation: the state
/// after one logical input. When the view has no loaded state, every input
/// is a no-op.
pub open spec fn spec_handle(key: Key, m: AppModel) -> AppModel {
    match m.artist {
        None => m,
        Some(a) => match key {
            Key::Esc => AppModel {
                artist: Some(ArtistViewModel { artist_selected_block: ArtistBlock::Empty, ..a }),
                ..m
            },
            Key::Down => if a.artist_selected_block is Empty {
                spec_hover_step(m, Direction::Down)
            } else {
                spec_cursor_step(m, Direction::Down)
            },
            Key::Up => if a.artist_selected_block is Empty {
                spec_hover_step(m, Direction::Up)
            } else {
                spec_cursor_step(m, Direction::Up)
            },
            Key::Left => spec_left(m),
            Key::Right => spec_hover_step(
                AppModel {
                    artist: Some(
                        ArtistViewModel { artist_selected_block: ArtistBlock::Empty, ..a },
                    ),
                    ..m
                },
                Direction::Down,
            ),
            Key::Enter => if a.artist_selected_block is Empty {
                spec_enter_hovered(m)
            } else {
                spec_enter_selected(m)
            },
            Key::Other => m,
        },
    }
}

/// `Down` in selection mode: step the selected pane's cursor forward.
pub fn handle_down_press_on_selected_block(app: &mut App)
    ensures
        final(app)@ == spec_cursor_step(old(app)@, Direction::Down),
{
    if let Some(artist) = &mut app.artist {
        match artist.artist_selected_block {
            ArtistBlock::TopTracks => {
                let next = next_index(
                    artist.top_tracks.len(),
                    artist.selected_top_track_index,
                    Direction::Down,
                );
                artist.selected_top_track_index = next;
            },
            ArtistBlock::Albums => {
                let next = next_index(
                    artist.albums.len(),
                    artist.selected_album_index,
                    Direction::Down,
                );
                artist.selected_album_index = next;
            },
            ArtistBlock::RelatedArtists => {
                let next = next_index(
                    artist.related_artists.len(),
                    artist.selected_related_artist_index,
                    Direction::Down,
                );
                artist.selected_related_artist_index = next;
            },
            ArtistBlock::Empty => {},
        }
    }
}

/// `Down` (or `Right`) in navigation mode: move the hover forward along the
/// cyclic pane order.
pub fn handle_down_press_on_hovered_block(app: &mut App)
    ensures
        final(app)@ == spec_hover_step(old(app)@, Direction::Down),
{
    if let Some(artist) = &mut app.artist {
        match artist.artist_hovered_block {
            ArtistBlock::TopTracks => {
                artist.artist_hovered_block = ArtistBlock::Albums;
            },
            ArtistBlock::Albums => {
                artist.artist_hovered_block = ArtistBlock::RelatedArtists;
            },
            ArtistBlock::RelatedArtists => {
                artist.artist_hovered_block = ArtistBlock::TopTracks;
            },
            ArtistBlock::Empty => {},
        }
    }
}

/// `Up` in selection mode: step the selected pane's cursor backward.
pub fn handle_up_press_on_selected_block(app: &mut App)
    ensures
        final(app)@ == spec_cursor_step(old(app)@, Direction::Up),
{
    if let Some(artist) = &mut app.artist {
        match artist.artist_selected_block {
            ArtistBlock::TopTracks => {
                let next = next_index(
                    artist.top_tracks.len(),
                    artist.selected_top_track_index,
                    Direction::Up,
                );
                artist.selected_top_track_index = next;
            },
            ArtistBlock::Albums => {
                let next = next_index(
                    artist.albums.len(),
                    artist.selected_album_index,
                    Direction::Up,
                );
                artist.selected_album_index = next;
            },
            ArtistBlock::RelatedArtists => {
                let next = next_index(
                    artist.related_artists.len(),
                    artist.selected_related_artist_index,
                    Direction::Up,
                );
                artist.selected_related_artist_index = next;
            },
            ArtistBlock::Empty => {},
        }
    }
}

/// `Up` in navigation mode: move the hover backward along the cyclic pane
/// order.
pub fn handle_up_press_on_hovered_block(app: &mut App)
    ensures
        final(app)@ == spec_hover_step(old(app)@, Direction::Up),
{
    if let Some(artist) = &mut app.artist {
        match artist.artist_hovered_block {
            ArtistBlock::TopTracks => {
                artist.artist_hovered_block = ArtistBlock::RelatedArtists;
            },
            ArtistBlock::Albums => {
                artist.artist_hovered_block = ArtistBlock::TopTracks;
            },
            ArtistBlock::RelatedArtists => {
                artist.artist_hovered_block = ArtistBlock::Albums;
            },
            ArtistBlock::Empty => {},
        }
    }
}

/// `Enter` in selection mode: activate the selected pane.
///
/// Two steps, so that no borrow of the view is held while the application
/// surface is called: the pane's action is first computed as a plain
/// [`OutboundRequest`] value from a read-only borrow of the state, then the
/// state transition is applied and the request handed on.
pub fn handle_enter_event_on_selected_block(app: &mut App)
    ensures
        final(app)@ == spec_enter_selected(old(app)@),
{
    let mut request: Option<OutboundRequest> = None;
    let mut album_search = false;
    match &app.artist {
        None => {},
        Some(artist) => {
            match artist.artist_selected_block {
                ArtistBlock::TopTracks => {
                    let mut top_tracks: Vec<String> = Vec::new();
                    let mut i: usize = 0;
                    while i < artist.top_tracks.len()
                        invariant
                            i <= artist.top_tracks.len(),
                            top_tracks@.len() == i,
                            forall|j: int|
                                0 <= j < i ==> top_tracks@[j]@ == artist.top_tracks@[j].uri@,
                        decreases artist.top_tracks.len() - i,
                    {
                        top_tracks.push(artist.top_tracks[i].uri.clone());
                        i += 1;
                    }
                    proof {
                        assert(top_tracks@.map_values(|s: String| s@) =~= artist@.top_tracks
                            .map_values(|t: TrackModel| t.uri));
                    }
                    request = Some(
                        OutboundRequest::StartPlayback {
                            context_id: None,
                            track_uris: Some(top_tracks),
                            starting_index: artist.selected_top_track_index,
                        },
                    );
                },
                ArtistBlock::Albums => {
                    if let Some(i) = artist.selected_album_index {
                        if i < artist.albums.len() {
                            let selected_album = Album {
                                id: artist.albums[i].id.clone(),
                                name: artist.albums[i].name.clone(),
                            };
                            album_search = true;
                            request = Some(
                                OutboundRequest::FetchAlbumTracks { album: selected_album },
                            );
                        }
                    }
                },
                ArtistBlock::RelatedArtists => {
                    if let Some(i) = artist.selected_related_artist_index {
                        if i < artist.related_artists.len() {
                            request = Some(
                                OutboundRequest::NavigateToArtist {
                                    artist_id: artist.related_artists[i].id.clone(),
                                    artist_name: artist.related_artists[i].name.clone(),
                                },
                            );
                        }
                    }
                },
                ArtistBlock::Empty => {},
            }
        },
    }
    if album_search {
        app.track_table.context = Some(TrackTableContext::AlbumSearch);
    }
    match request {
        Some(OutboundRequest::StartPlayback { context_id, track_uris, starting_index }) => {
            app.start_playback(context_id, track_uris, starting_index);
        },
        Some(OutboundRequest::FetchAlbumTracks { album }) => {
            app.get_album_tracks(album);
        },
        Some(OutboundRequest::NavigateToArtist { artist_id, artist_name }) => {
            app.get_artist(artist_id.as_str(), artist_name.as_str());
        },
        None => {},
    }
    proof {
        assert(final(app)@ =~= spec_enter_selected(old(app)@));
    }
}

/// `Enter` in navigation mode: commit the hovered pane to the selection;
/// cursor state is untouched.
pub fn handle_enter_event_on_hovered_block(app: &mut App)
    ensures
        final(app)@ == spec_enter_hovered(old(app)@),
{
    if let Some(artist) = &mut app.artist {
        match artist.artist_hovered_block {
            ArtistBlock::TopTracks => artist.artist_selected_block = ArtistBlock::TopTracks,
            ArtistBlock::Albums => artist.artist_selected_block = ArtistBlock::Albums,
            ArtistBlock::RelatedArtists => {
                artist.artist_selected_block = ArtistBlock::RelatedArtists
            },
            ArtistBlock::Empty => {},
        }
    }
}

/// The artist view's entry point: resolve one logical input event against
/// the view's focus state, as [`spec_handle`] states. With no loaded view
/// every input is a no-op; an input the view does not know is ignored.
pub fn handler(key: Key, app: &mut App)
    ensures
        final(app)@ == spec_handle(key, old(app)@),
{
    let (selected_block, hovered_block) = match &app.artist {
        None => {
            return ;
        },
        Some(artist) => (artist.artist_selected_block, artist.artist_hovered_block),
    };
    match key {
        Key::Esc => {
            if let Some(artist) = &mut app.artist {
                artist.artist_selected_block = ArtistBlock::Empty;
            }
        },
        Key::Down => {
            if selected_block != ArtistBlock::Empty {
                handle_down_press_on_selected_block(app);
            } else {
                handle_down_press_on_hovered_block(app);
            }
        },
        Key::Up => {
            if selected_block != ArtistBlock::Empty {
                handle_up_press_on_selected_block(app);
            } else {
                handle_up_press_on_hovered_block(app);
            }
        },
        Key::Left => {
            if let Some(artist) = &mut app.artist {
                artist.artist_selected_block = ArtistBlock::Empty;
                match artist.artist_hovered_block {
                    ArtistBlock::TopTracks => {},
                    ArtistBlock::Albums => {
                        artist.artist_hovered_block = ArtistBlock::TopTracks;
                    },
                    ArtistBlock::RelatedArtists => {
                        artist.artist_hovered_block = ArtistBlock::Albums;
                    },
                    ArtistBlock::Empty => {},
                }
            }
            if hovered_block == ArtistBlock::TopTracks {
                handle_left_event(app);
            }
        },
        Key::Right => {
            if let Some(artist) = &mut app.artist {
                artist.artist_selected_block = ArtistBlock::Empty;
            }
            handle_down_press_on_hovered_block(app);
        },
        Key::Enter => {
            if selected_block != ArtistBlock::Empty {
                handle_enter_event_on_selected_block(app);
            } else {
                handle_enter_event_on_hovered_block(app);
            }
        },
        Key::Other => {},
    }
}

/// The state after pressing `key` `n` times in a row.
pub open spec fn spec_handle_n(key: Key, m: AppModel, n: nat) -> AppModel
    decreases n,
{
    if n == 0 {
        m
    } else {
        spec_handle_n(key, spec_handle(key, m), (n - 1) as nat)
    }
}

/// Cyclic closure of the hover: from navigation mode, pressing `Down` or
/// `Right` any multiple of three times (the pane count) returns the whole
/// state, the hovered pane included, to what it was.
pub proof fn lemma_hover_cycle(key: Key, m: AppModel, a: ArtistViewModel, k: nat)
    requires
        key == Key::Down || key == Key::Right,
        m.artist == Some(a),
        a.artist_selected_block is Empty,
    ensures
        spec_handle_n(key, m, 3 * k) == m,
    decreases k,
{
    if k > 0 {
        let m1 = spec_handle(key, m);
        let m2 = spec_handle(key, m1);
        let m3 = spec_handle(key, m2);
        assert(m3 == m);
        assert(spec_handle_n(key, m, 3 * k) == spec_handle_n(key, m1, (3 * k - 1) as nat));
        assert(spec_handle_n(key, m1, (3 * k - 1) as nat) == spec_handle_n(
            key,
            m2,
            (3 * k - 2) as nat,
        ));
        assert(spec_handle_n(key, m2, (3 * k - 2) as nat) == spec_handle_n(
            key,
            m3,
            (3 * k - 3) as nat,
        ));
        assert(3 * k - 3 == 3 * ((k - 1) as nat));
        lemma_hover_cycle(key, m, a, (k - 1) as nat);
    }
}

/// `Esc` from any state yields navigation mode and changes nothing else:
/// the hovered pane, every cursor, every list, the route and the request
/// log are exactly what they were, and no outbound request is issued.
pub proof fn lemma_esc_resets_selection(m: AppModel, a: ArtistViewModel)
    requires
        m.artist == Some(a),
    ensures
        spec_handle(Key::Esc, m) == (AppModel {
            artist: Some(ArtistViewModel { artist_selected_block: ArtistBlock::Empty, ..a }),
            ..m
        }),
        spec_handle(Key::Esc, m).requests == m.requests,
{
}

/// `Enter` in navigation mode commits the hovered pane to the selection and
/// mutates nothing else: in particular, no cursor index moves.
pub proof fn lemma_enter_commits_hover(m: AppModel, a: ArtistViewModel)
    requires
        m.artist == Some(a),
        a.artist_selected_block is Empty,
        a.artist_hovered_block !is Empty,
    ensures
        spec_handle(Key::Enter, m) == (AppModel {
            artist: Some(ArtistViewModel { artist_selected_block: a.artist_hovered_block, ..a }),
            ..m
        }),
{
}

/// `Left` while the hover is on the outermost pane delegates outward
/// instead of moving the hover: the selection is dropped, the hovered pane
/// stays where it was, and the route falls back to the enclosing context.
pub proof fn lemma_left_at_outer_pane_delegates(m: AppModel, a: ArtistViewModel)
    requires
        m.artist == Some(a),
        a.artist_hovered_block is TopTracks,
    ensures
        spec_handle(Key::Left, m) == (AppModel {
            artist: Some(ArtistViewModel { artist_selected_block: ArtistBlock::Empty, ..a }),
            current_route: Route {
                active_block: ActiveBlock::Empty,
                hovered_block: ActiveBlock::Library,
            },
            ..m
        }),
{
}

/// The view's focus invariant is preserved: as long as the hovered pane is
/// not `Empty` before an input, it is not `Empty` after it either.
pub proof fn lemma_handle_keeps_hover_present(key: Key, m: AppModel, a: ArtistViewModel)
    requires
        m.artist == Some(a),
        a.artist_hovered_block !is Empty,
    ensures
        spec_handle(key, m).artist matches Some(a2) && a2.artist_hovered_block !is Empty,
{
}

/// A directional step in selection mode leaves the selected pane's cursor
/// inside its list: on a non-empty list the new cursor is a valid index, on
/// an empty list it is `None` — even when the old cursor was stale.
pub proof fn lemma_cursor_step_stays_in_bounds(
    m: AppModel,
    a: ArtistViewModel,
    direction: Direction,
)
    requires
        m.artist == Some(a),
        a.artist_selected_block !is Empty,
    ensures
        spec_cursor_step(m, direction).artist matches Some(a2) && {
            let b = a.artist_selected_block;
            &&& (spec_list_len(a, b) > 0 ==> (spec_cursor(a2, b) matches Some(j) && j
                < spec_list_len(a, b)))
            &&& (spec_list_len(a, b) == 0 ==> spec_cursor(a2, b) is None)
        },
{
}

} // verus!
