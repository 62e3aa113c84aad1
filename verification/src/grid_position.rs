//! Positions on a fixed-size toroidal grid: stepping in a direction wraps
//! around the edges, so every move from an in-bounds cell lands on an
//! in-bounds cell.

use vstd::prelude::*;

use rand::Rng;

use crate::direction::Direction;

verus! {

/// A cell of the grid, with `x` growing to the right and `y` growing
/// downwards. An in-bounds position on a `width x height` grid satisfies
/// `x < width` and `y < height`.
#[derive(Clone, Copy, Debug, PartialEq, Eq, Structural)]
pub struct GridPosition {
    pub x: u8,
    pub y: u8,
}

/// The cell one step from `p` in direction `d` on a `width x height` grid,
/// wrapping around the edges: stepping up from the top row lands on the
/// bottom row, stepping left from the leftmost column lands on the rightmost
/// column, and symmetrically for the other two directions.
pub open spec fn move_in(p: GridPosition, d: Direction, width: u8, height: u8) -> GridPosition {
    match d {
        Direction::Up => GridPosition {
            x: p.x,
            y: if p.y == 0 { (height - 1) as u8 } else { (p.y - 1) as u8 },
        },
        Direction::Down => GridPosition {
            x: p.x,
            y: if p.y + 1 == height { 0 } else { (p.y + 1) as u8 },
        },
        Direction::Left => GridPosition {
            x: if p.x == 0 { (width - 1) as u8 } else { (p.x - 1) as u8 },
            y: p.y,
        },
        Direction::Right => GridPosition {
            x: if p.x + 1 == width { 0 } else { (p.x + 1) as u8 },
            y: p.y,
        },
    }
}

impl GridPosition {
    /// Whether this position lies on a `width x height` grid.
    pub open spec fn in_bounds(self, width: u8, height: u8) -> bool {
        self.x < width && self.y < height
    }

    /// Constructs the position `(x, y)`. The caller is responsible for
    /// keeping coordinates within the grid.
    pub fn new(x: u8, y: u8) -> (r: GridPosition)
        ensures
            r == (GridPosition { x, y }),
    {
        GridPosition { x, y }
    }

    /// A uniformly chosen position with `x` below `max_x` and `y` below
    /// `max_y`. No cell is excluded: the result may coincide with any
    /// occupied cell.
    pub fn random(max_x: u8, max_y: u8) -> (r: GridPosition)
        requires
            max_x >= 1,
            max_y >= 1,
        ensures
            r.in_bounds(max_x, max_y),
    {
        GridPosition { x: random_below(max_x), y: random_below(max_y) }
    }

    /// Steps `pos` one cell in direction `dir`, wrapping around the edges of
    /// a `width x height` grid. The same wrap rule applies to both axes:
    /// leaving the grid on one side re-enters it from the opposite side.
    pub fn new_from_move(pos: GridPosition, dir: Direction, width: u8, height: u8) -> (r:
        GridPosition)
        requires
            pos.in_bounds(width, height),
        ensures
            r == move_in(pos, dir, width, height),
            r.in_bounds(width, height),
    {
        match dir {
            Direction::Up => GridPosition::new(
                pos.x,
                if pos.y == 0 {
                    height - 1
                } else {
                    pos.y - 1
                },
            ),
            Direction::Down => GridPosition::new(
                pos.x,
                if pos.y + 1 == height {
                    0
                } else {
                    pos.y + 1
                },
            ),
            Direction::Left => GridPosition::new(
                if pos.x == 0 {
                    width - 1
                } else {
                    pos.x - 1
                },
                pos.y,
            ),
            Direction::Right => GridPosition::new(
                if pos.x + 1 == width {
                    0
                } else {
                    pos.x + 1
                },
                pos.y,
            ),
        }
    }
}

/// Movement never leaves the grid: stepping from an in-bounds position in
/// any direction yields an in-bounds position.
pub proof fn lemma_move_in_bounds(p: GridPosition, d: Direction, width: u8, height: u8)
    requires
        p.in_bounds(width, height),
    ensures
        move_in(p, d, width, height).in_bounds(width, height),
{
}

/// Movement and its inverse cancel: stepping in a direction and then in the
/// opposite direction returns to the starting position, wrap-around
/// included.
pub proof fn lemma_move_in_inverse(p: GridPosition, d: Direction, width: u8, height: u8)
    requires
        p.in_bounds(width, height),
    ensures
        move_in(move_in(p, d, width, height), d.spec_inverse(), width, height) == p,
{
}

/// Relies on rand's `Rng::gen_range` through `rand::thread_rng`: the result
/// is uniformly distributed in `[0, bound)`, and the call panics only when
/// the range is empty, which the precondition rules out.
#[verifier::external_body]
fn random_below(bound: u8) -> (r: u8)
    requires
        bound >= 1,
    ensures
        r < bound,
{
    rand::thread_rng().gen_range(0, bound)
}

} // verus!
