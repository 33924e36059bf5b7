//! The panes of the artist view and their cyclic order.
//!
//! `Empty` is a sentinel meaning "no pane": it is the value of the selected
//! pane while the view is in navigation mode, and it has no transitions of
//! its own. The cyclic order of the real panes is
//! `TopTracks -> Albums -> RelatedArtists -> TopTracks` (forward, used for
//! `Down` and `Right`); `Up` walks it in reverse.

use vstd::prelude::*;

verus! {

/// One pane of the artist view, or `Empty` for "no pane".
#[derive(Clone, Copy, Debug, PartialEq, Eq, Structural)]
pub enum ArtistBlock {
    TopTracks,
    Albums,
    RelatedArtists,
    Empty,
}

/// The next pane along the forward cyclic order; `Empty` stays `Empty`.
pub open spec fn spec_next_block(b: ArtistBlock) -> ArtistBlock {
    match b {
        ArtistBlock::TopTracks => ArtistBlock::Albums,
        ArtistBlock::Albums => ArtistBlock::RelatedArtists,
        ArtistBlock::RelatedArtists => ArtistBlock::TopTracks,
        ArtistBlock::Empty => ArtistBlock::Empty,
    }
}

/// The next pane along the reverse cyclic order; `Empty` stays `Empty`.
pub open spec fn spec_prev_block(b: ArtistBlock) -> ArtistBlock {
    match b {
        ArtistBlock::TopTracks => ArtistBlock::RelatedArtists,
        ArtistBlock::Albums => ArtistBlock::TopTracks,
        ArtistBlock::RelatedArtists => ArtistBlock::Albums,
        ArtistBlock::Empty => ArtistBlock::Empty,
    }
}

/// Walking forward and then backward (or backward and then forward) returns
/// to the starting pane: the two orders are inverses.
pub proof fn lemma_block_order_inverse(b: ArtistBlock)
    ensures
        spec_prev_block(spec_next_block(b)) == b,
        spec_next_block(spec_prev_block(b)) == b,
{
}

} // verus!
