//! The logical input surface. Mapping physical keys to these logical events
//! is an external concern; the navigation core only sees this enumeration.

use vstd::prelude::*;

verus! {

/// One logical input event: a direction, `Enter`, `Esc`, or anything else
/// (ignored by the navigation core).
#[derive(Clone, Copy, Debug, PartialEq, Eq, Structural)]
pub enum Key {
    Up,
    Down,
    Left,
    Right,
    Enter,
    Esc,
    Other,
}

} // verus!
