//! The list cursor: computes the next highlighted index within an ordered
//! list, given the list's current length, the current index (if any) and a
//! direction. Boundaries clamp; there is no wraparound. The result is
//! reclamped against the current length on every call, so a stale index left
//! over from a longer list can never step outside the list.

use vstd::prelude::*;

verus! {

/// A vertical step of the highlight cursor, or of the hover pointer.
#[derive(Clone, Copy, Debug, PartialEq, Eq, Structural)]
pub enum Direction {
    Up,
    Down,
}

/// What `next_index` returns: `None` on an empty list; the top of the list on
/// a first visit; otherwise one step in `direction`, clamped into
/// `[0, list_length - 1]`.
pub open spec fn spec_next_index(
    list_length: int,
    current: Option<usize>,
    direction: Direction,
) -> Option<usize> {
    if list_length <= 0 {
        None
    } else {
        match current {
            None => Some(0usize),
            Some(i) => match direction {
                Direction::Down => if i + 1 < list_length {
                    Some((i + 1) as usize)
                } else {
                    Some((list_length - 1) as usize)
                },
                Direction::Up => if i == 0 {
                    Some(0usize)
                } else if i - 1 < list_length {
                    Some((i - 1) as usize)
                } else {
                    Some((list_length - 1) as usize)
                },
            },
        }
    }
}

/// Moves the highlight cursor one step within a list of `list_length` rows.
///
/// Total and side-effect free: an empty list yields `None`, a first visit
/// highlights the top row, and any other step is clamped into
/// `[0, list_length - 1]`, even when `current` is stale (out of range for the
/// list's present length).
pub fn next_index(list_length: usize, current: Option<usize>, direction: Direction) -> (r: Option<
    usize,
>)
    ensures
        r == spec_next_index(list_length as int, current, direction),
        r is None <==> list_length == 0,
        list_length > 0 && current is None ==> r == Some(0usize),
        r matches Some(j) ==> j < list_length,
        current matches Some(i) ==> (i < list_length && direction is Down ==> r == Some(
            (if i + 1 < list_length {
                i + 1
            } else {
                list_length - 1
            }) as usize,
        )),
        current matches Some(i) ==> (i < list_length && direction is Up ==> r == Some(
            (if i == 0 {
                0
            } else {
                i - 1
            }) as usize,
        )),
{
    if list_length == 0 {
        return None;
    }
    match current {
        None => Some(0),
        Some(i) => match direction {
            Direction::Down => {
                if i < list_length - 1 {
                    Some(i + 1)
                } else {
                    Some(list_length - 1)
                }
            },
            Direction::Up => {
                if i == 0 {
                    Some(0)
                } else if i - 1 < list_length {
                    Some(i - 1)
                } else {
                    Some(list_length - 1)
                }
            },
        },
    }
}

} // verus!
