use snake_game::direction::Direction;
use snake_game::grid_position::GridPosition;

#[test]
fn new_stores_coordinates() {
    let p = GridPosition::new(3, 4);
    assert_eq!(p.x, 3);
    assert_eq!(p.y, 4);
}

#[test]
fn move_right_steps_one_cell() {
    let p = GridPosition::new(2, 2);
    let q = GridPosition::new_from_move(p, Direction::Right, 5, 5);
    assert_eq!(q, GridPosition::new(3, 2));
}

#[test]
fn move_left_steps_one_cell() {
    let p = GridPosition::new(2, 2);
    let q = GridPosition::new_from_move(p, Direction::Left, 5, 5);
    assert_eq!(q, GridPosition::new(1, 2));
}

#[test]
fn move_up_steps_one_cell() {
    let p = GridPosition::new(2, 2);
    let q = GridPosition::new_from_move(p, Direction::Up, 5, 5);
    assert_eq!(q, GridPosition::new(2, 1));
}

#[test]
fn move_down_steps_one_cell() {
    let p = GridPosition::new(2, 2);
    let q = GridPosition::new_from_move(p, Direction::Down, 5, 5);
    assert_eq!(q, GridPosition::new(2, 3));
}

#[test]
fn move_right_wraps_to_left_edge() {
    let p = GridPosition::new(4, 2);
    let q = GridPosition::new_from_move(p, Direction::Right, 5, 5);
    assert_eq!(q, GridPosition::new(0, 2));
}

#[test]
fn move_left_wraps_to_right_edge() {
    let p = GridPosition::new(0, 2);
    let q = GridPosition::new_from_move(p, Direction::Left, 5, 7);
    assert_eq!(q, GridPosition::new(4, 2));
}

#[test]
fn move_up_wraps_to_bottom_edge() {
    let p = GridPosition::new(2, 0);
    let q = GridPosition::new_from_move(p, Direction::Up, 5, 7);
    assert_eq!(q, GridPosition::new(2, 6));
}

#[test]
fn move_down_wraps_to_top_edge() {
    let p = GridPosition::new(2, 6);
    let q = GridPosition::new_from_move(p, Direction::Down, 5, 7);
    assert_eq!(q, GridPosition::new(2, 0));
}

#[test]
fn move_then_inverse_returns_to_start() {
    let dirs = [Direction::Up, Direction::Down, Direction::Left, Direction::Right];
    for x in 0..5u8 {
        for y in 0..3u8 {
            for d in dirs {
                let p = GridPosition::new(x, y);
                let q = GridPosition::new_from_move(p, d, 5, 3);
                let back = GridPosition::new_from_move(q, d.inverse(), 5, 3);
                assert_eq!(back, p);
            }
        }
    }
}

#[test]
fn move_stays_in_bounds_everywhere() {
    let dirs = [Direction::Up, Direction::Down, Direction::Left, Direction::Right];
    for x in 0..4u8 {
        for y in 0..6u8 {
            for d in dirs {
                let q = GridPosition::new_from_move(GridPosition::new(x, y), d, 4, 6);
                assert!(q.x < 4);
                assert!(q.y < 6);
            }
        }
    }
}

#[test]
fn random_on_single_cell_grid_is_origin() {
    for _ in 0..20 {
        let p = GridPosition::random(1, 1);
        assert_eq!(p, GridPosition::new(0, 0));
    }
}

#[test]
fn random_stays_in_bounds() {
    for _ in 0..100 {
        let p = GridPosition::random(5, 7);
        assert!(p.x < 5);
        assert!(p.y < 7);
    }
}
