use artist_nav::app::{
    ActiveBlock, Album, App, ArtistView, OutboundRequest, RelatedArtist, Track, TrackTableContext,
};
use artist_nav::artist::handler;
use artist_nav::event::Key;
use artist_nav::focus::ArtistBlock;

fn track(uri: &str, name: &str) -> Track {
    Track { uri: uri.to_string(), name: name.to_string() }
}

fn album(id: &str, name: &str) -> Album {
    Album { id: id.to_string(), name: name.to_string() }
}

fn related(id: &str, name: &str) -> RelatedArtist {
    RelatedArtist { id: id.to_string(), name: name.to_string() }
}

fn app_with_view(view: ArtistView) -> App {
    let mut app = App::new();
    app.artist = Some(view);
    app
}

fn five_track_view() -> ArtistView {
    ArtistView::new(
        vec![
            track("spotify:track:one", "One"),
            track("spotify:track:two", "Two"),
            track("spotify:track:three", "Three"),
            track("spotify:track:four", "Four"),
            track("spotify:track:five", "Five"),
        ],
        vec![album("alb1", "First Album"), album("alb2", "Second Album")],
        vec![related("art1", "First Artist"), related("art2", "Second Artist")],
    )
}

#[test]
fn on_esc() {
    let mut app = App::new();

    handler(Key::Esc, &mut app);

    let current_route = app.get_current_route();
    assert_eq!(current_route.active_block, ActiveBlock::Empty);
}

#[test]
fn absent_view_ignores_every_input() {
    // The view was never populated from the data layer: every input is a
    // no-op and the route is unaffected.
    let mut app = App::new();
    let route_before = *app.get_current_route();

    for key in [Key::Up, Key::Down, Key::Left, Key::Right, Key::Enter, Key::Esc, Key::Other] {
        handler(key, &mut app);
        assert!(app.artist.is_none());
        assert_eq!(*app.get_current_route(), route_before);
        assert!(app.requests.is_empty());
        assert_eq!(app.track_table.context, None);
    }
}

#[test]
fn hover_cycles_forward_with_down() {
    let mut app = app_with_view(five_track_view());
    assert_eq!(app.artist.as_ref().unwrap().artist_hovered_block, ArtistBlock::TopTracks);

    handler(Key::Down, &mut app);
    assert_eq!(app.artist.as_ref().unwrap().artist_hovered_block, ArtistBlock::Albums);
    handler(Key::Down, &mut app);
    assert_eq!(app.artist.as_ref().unwrap().artist_hovered_block, ArtistBlock::RelatedArtists);
    handler(Key::Down, &mut app);
    // Three presses, three panes: back where it started.
    assert_eq!(app.artist.as_ref().unwrap().artist_hovered_block, ArtistBlock::TopTracks);
    assert!(app.requests.is_empty());
}

#[test]
fn hover_cycles_backward_with_up() {
    let mut app = app_with_view(five_track_view());

    handler(Key::Up, &mut app);
    assert_eq!(app.artist.as_ref().unwrap().artist_hovered_block, ArtistBlock::RelatedArtists);
    handler(Key::Up, &mut app);
    assert_eq!(app.artist.as_ref().unwrap().artist_hovered_block, ArtistBlock::Albums);
    handler(Key::Up, &mut app);
    assert_eq!(app.artist.as_ref().unwrap().artist_hovered_block, ArtistBlock::TopTracks);
}

#[test]
fn hover_cycles_forward_with_right() {
    let mut app = app_with_view(five_track_view());

    handler(Key::Right, &mut app);
    assert_eq!(app.artist.as_ref().unwrap().artist_hovered_block, ArtistBlock::Albums);
    handler(Key::Right, &mut app);
    handler(Key::Right, &mut app);
    assert_eq!(app.artist.as_ref().unwrap().artist_hovered_block, ArtistBlock::TopTracks);
}

#[test]
fn enter_commits_hover_then_down_moves_cursor() {
    // Navigation mode, hover on the first pane.
    let mut app = app_with_view(five_track_view());

    handler(Key::Enter, &mut app);
    assert_eq!(app.artist.as_ref().unwrap().artist_selected_block, ArtistBlock::TopTracks);
    // Committing the hover touches no cursor.
    assert_eq!(app.artist.as_ref().unwrap().selected_top_track_index, None);
    assert!(app.requests.is_empty());

    // Five rows: first Down highlights the top, the next ones step, the
    // last ones clamp.
    handler(Key::Down, &mut app);
    assert_eq!(app.artist.as_ref().unwrap().selected_top_track_index, Some(0));
    handler(Key::Down, &mut app);
    assert_eq!(app.artist.as_ref().unwrap().selected_top_track_index, Some(1));
    handler(Key::Down, &mut app);
    handler(Key::Down, &mut app);
    handler(Key::Down, &mut app);
    assert_eq!(app.artist.as_ref().unwrap().selected_top_track_index, Some(4));
}

#[test]
fn esc_drops_selection_and_keeps_hover() {
    let mut app = app_with_view(five_track_view());
    if let Some(artist) = &mut app.artist {
        artist.artist_hovered_block = ArtistBlock::Albums;
        artist.artist_selected_block = ArtistBlock::RelatedArtists;
        artist.selected_related_artist_index = Some(1);
    }

    handler(Key::Esc, &mut app);

    let artist = app.artist.as_ref().unwrap();
    assert_eq!(artist.artist_selected_block, ArtistBlock::Empty);
    assert_eq!(artist.artist_hovered_block, ArtistBlock::Albums);
    assert_eq!(artist.selected_related_artist_index, Some(1));
    // No outbound request was issued.
    assert!(app.requests.is_empty());
}

#[test]
fn left_at_outer_pane_delegates_to_parent() {
    let mut app = app_with_view(five_track_view());
    if let Some(artist) = &mut app.artist {
        artist.artist_selected_block = ArtistBlock::TopTracks;
    }

    handler(Key::Left, &mut app);

    let artist = app.artist.as_ref().unwrap();
    // The hover did not move; the input went outward instead.
    assert_eq!(artist.artist_hovered_block, ArtistBlock::TopTracks);
    assert_eq!(artist.artist_selected_block, ArtistBlock::Empty);
    assert_eq!(app.get_current_route().active_block, ActiveBlock::Empty);
    assert_eq!(app.get_current_route().hovered_block, ActiveBlock::Library);
}

#[test]
fn left_moves_hover_toward_outer_pane() {
    let mut app = app_with_view(five_track_view());
    if let Some(artist) = &mut app.artist {
        artist.artist_hovered_block = ArtistBlock::RelatedArtists;
        artist.artist_selected_block = ArtistBlock::RelatedArtists;
    }

    handler(Key::Left, &mut app);
    let artist = app.artist.as_ref().unwrap();
    assert_eq!(artist.artist_hovered_block, ArtistBlock::Albums);
    assert_eq!(artist.artist_selected_block, ArtistBlock::Empty);

    handler(Key::Left, &mut app);
    let artist = app.artist.as_ref().unwrap();
    assert_eq!(artist.artist_hovered_block, ArtistBlock::TopTracks);
    assert_eq!(artist.artist_selected_block, ArtistBlock::Empty);
}

#[test]
fn right_drops_selection_and_moves_hover() {
    let mut app = app_with_view(five_track_view());
    if let Some(artist) = &mut app.artist {
        artist.artist_selected_block = ArtistBlock::TopTracks;
    }

    handler(Key::Right, &mut app);

    let artist = app.artist.as_ref().unwrap();
    assert_eq!(artist.artist_selected_block, ArtistBlock::Empty);
    assert_eq!(artist.artist_hovered_block, ArtistBlock::Albums);
}

#[test]
fn top_tracks_activation_starts_playback() {
    let mut app = app_with_view(five_track_view());
    if let Some(artist) = &mut app.artist {
        artist.artist_selected_block = ArtistBlock::TopTracks;
        artist.selected_top_track_index = Some(2);
    }

    handler(Key::Enter, &mut app);

    assert_eq!(app.requests.len(), 1);
    match &app.requests[0] {
        OutboundRequest::StartPlayback { context_id, track_uris, starting_index } => {
            assert_eq!(*context_id, None);
            assert_eq!(
                *track_uris,
                Some(vec![
                    "spotify:track:one".to_string(),
                    "spotify:track:two".to_string(),
                    "spotify:track:three".to_string(),
                    "spotify:track:four".to_string(),
                    "spotify:track:five".to_string(),
                ])
            );
            assert_eq!(*starting_index, Some(2));
        }
        other => panic!("unexpected request {:?}", other),
    }
    // Activation does not change the focus state.
    let artist = app.artist.as_ref().unwrap();
    assert_eq!(artist.artist_selected_block, ArtistBlock::TopTracks);
    assert_eq!(artist.selected_top_track_index, Some(2));
}

#[test]
fn album_activation_fetches_album_tracks() {
    let mut app = app_with_view(five_track_view());
    if let Some(artist) = &mut app.artist {
        artist.artist_selected_block = ArtistBlock::Albums;
        artist.selected_album_index = Some(1);
    }

    handler(Key::Enter, &mut app);

    // Exactly one fetch request, for the highlighted album.
    assert_eq!(app.requests.len(), 1);
    match &app.requests[0] {
        OutboundRequest::FetchAlbumTracks { album } => {
            assert_eq!(album.id, "alb2");
            assert_eq!(album.name, "Second Album");
        }
        other => panic!("unexpected request {:?}", other),
    }
    assert_eq!(app.track_table.context, Some(TrackTableContext::AlbumSearch));
    // Neither the selection nor the cursor moved.
    let artist = app.artist.as_ref().unwrap();
    assert_eq!(artist.artist_selected_block, ArtistBlock::Albums);
    assert_eq!(artist.selected_album_index, Some(1));
}

#[test]
fn album_activation_with_stale_cursor_is_a_no_op() {
    let mut app = app_with_view(five_track_view());
    if let Some(artist) = &mut app.artist {
        artist.artist_selected_block = ArtistBlock::Albums;
        // Stale: the album list has only two entries.
        artist.selected_album_index = Some(5);
    }

    handler(Key::Enter, &mut app);

    assert!(app.requests.is_empty());
    assert_eq!(app.track_table.context, None);
}

#[test]
fn album_activation_without_cursor_is_a_no_op() {
    let mut app = app_with_view(five_track_view());
    if let Some(artist) = &mut app.artist {
        artist.artist_selected_block = ArtistBlock::Albums;
    }

    handler(Key::Enter, &mut app);

    assert!(app.requests.is_empty());
    assert_eq!(app.track_table.context, None);
}

#[test]
fn related_artist_activation_navigates() {
    let mut app = app_with_view(five_track_view());
    if let Some(artist) = &mut app.artist {
        artist.artist_selected_block = ArtistBlock::RelatedArtists;
        artist.selected_related_artist_index = Some(0);
    }

    handler(Key::Enter, &mut app);

    assert_eq!(app.requests.len(), 1);
    match &app.requests[0] {
        OutboundRequest::NavigateToArtist { artist_id, artist_name } => {
            assert_eq!(*artist_id, "art1");
            assert_eq!(*artist_name, "First Artist");
        }
        other => panic!("unexpected request {:?}", other),
    }
}

#[test]
fn related_artist_activation_with_stale_cursor_is_a_no_op() {
    let mut app = app_with_view(five_track_view());
    if let Some(artist) = &mut app.artist {
        artist.artist_selected_block = ArtistBlock::RelatedArtists;
        artist.selected_related_artist_index = Some(9);
    }

    handler(Key::Enter, &mut app);

    assert!(app.requests.is_empty());
}

#[test]
fn selection_cursor_moves_inside_selected_pane_only() {
    let mut app = app_with_view(five_track_view());
    if let Some(artist) = &mut app.artist {
        artist.artist_selected_block = ArtistBlock::Albums;
    }

    handler(Key::Down, &mut app);
    handler(Key::Down, &mut app);
    handler(Key::Down, &mut app);

    let artist = app.artist.as_ref().unwrap();
    // Two albums: the cursor clamps at the last one.
    assert_eq!(artist.selected_album_index, Some(1));
    // The other panes' cursors and the hover were untouched.
    assert_eq!(artist.selected_top_track_index, None);
    assert_eq!(artist.selected_related_artist_index, None);
    assert_eq!(artist.artist_hovered_block, ArtistBlock::TopTracks);
}

#[test]
fn down_on_empty_selected_list_leaves_cursor_unset() {
    let mut app = app_with_view(ArtistView::new(Vec::new(), Vec::new(), Vec::new()));
    if let Some(artist) = &mut app.artist {
        artist.artist_selected_block = ArtistBlock::TopTracks;
    }

    handler(Key::Down, &mut app);
    handler(Key::Up, &mut app);

    let artist = app.artist.as_ref().unwrap();
    assert_eq!(artist.selected_top_track_index, None);
}

#[test]
fn other_keys_are_ignored() {
    let mut app = app_with_view(five_track_view());

    handler(Key::Other, &mut app);

    let artist = app.artist.as_ref().unwrap();
    assert_eq!(artist.artist_hovered_block, ArtistBlock::TopTracks);
    assert_eq!(artist.artist_selected_block, ArtistBlock::Empty);
    assert!(app.requests.is_empty());
}
