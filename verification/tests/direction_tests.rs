use snake_game::direction::{
    Direction, KEY_A, KEY_ARROW_DOWN, KEY_ARROW_LEFT, KEY_ARROW_RIGHT, KEY_ARROW_UP, KEY_D, KEY_S,
    KEY_W,
};

#[test]
fn inverse_swaps_up_and_down() {
    assert_eq!(Direction::Up.inverse(), Direction::Down);
    assert_eq!(Direction::Down.inverse(), Direction::Up);
}

#[test]
fn inverse_swaps_left_and_right() {
    assert_eq!(Direction::Left.inverse(), Direction::Right);
    assert_eq!(Direction::Right.inverse(), Direction::Left);
}

#[test]
fn inverse_twice_is_identity() {
    for d in [Direction::Up, Direction::Down, Direction::Left, Direction::Right] {
        assert_eq!(d.inverse().inverse(), d);
    }
}

#[test]
fn arrow_keys_map_to_directions() {
    assert_eq!(Direction::from_input(KEY_ARROW_UP), Some(Direction::Up));
    assert_eq!(Direction::from_input(KEY_ARROW_DOWN), Some(Direction::Down));
    assert_eq!(Direction::from_input(KEY_ARROW_LEFT), Some(Direction::Left));
    assert_eq!(Direction::from_input(KEY_ARROW_RIGHT), Some(Direction::Right));
}

#[test]
fn wasd_keys_map_to_directions() {
    assert_eq!(Direction::from_input(KEY_W), Some(Direction::Up));
    assert_eq!(Direction::from_input(KEY_S), Some(Direction::Down));
    assert_eq!(Direction::from_input(KEY_A), Some(Direction::Left));
    assert_eq!(Direction::from_input(KEY_D), Some(Direction::Right));
}

#[test]
fn unmapped_codes_give_no_direction() {
    assert_eq!(Direction::from_input(8), None);
    assert_eq!(Direction::from_input(42), None);
    assert_eq!(Direction::from_input(u32::MAX), None);
}
