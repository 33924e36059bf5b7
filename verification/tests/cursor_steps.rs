use artist_nav::cursor::{next_index, Direction};

#[test]
fn empty_list_has_no_cursor() {
    assert_eq!(next_index(0, None, Direction::Down), None);
    assert_eq!(next_index(0, None, Direction::Up), None);
    assert_eq!(next_index(0, Some(3), Direction::Down), None);
    assert_eq!(next_index(0, Some(3), Direction::Up), None);
}

#[test]
fn first_visit_highlights_top_row() {
    assert_eq!(next_index(1, None, Direction::Down), Some(0));
    assert_eq!(next_index(1, None, Direction::Up), Some(0));
    assert_eq!(next_index(7, None, Direction::Down), Some(0));
    assert_eq!(next_index(7, None, Direction::Up), Some(0));
}

#[test]
fn down_steps_and_clamps_at_last_row() {
    assert_eq!(next_index(5, Some(0), Direction::Down), Some(1));
    assert_eq!(next_index(5, Some(3), Direction::Down), Some(4));
    assert_eq!(next_index(5, Some(4), Direction::Down), Some(4));
}

#[test]
fn up_steps_and_clamps_at_top_row() {
    assert_eq!(next_index(5, Some(4), Direction::Up), Some(3));
    assert_eq!(next_index(5, Some(1), Direction::Up), Some(0));
    assert_eq!(next_index(5, Some(0), Direction::Up), Some(0));
}

#[test]
fn stale_cursor_is_reclamped() {
    // The list shrank since the cursor was set: the step still lands inside.
    assert_eq!(next_index(3, Some(9), Direction::Down), Some(2));
    assert_eq!(next_index(3, Some(9), Direction::Up), Some(2));
    assert_eq!(next_index(1, Some(5), Direction::Up), Some(0));
}
