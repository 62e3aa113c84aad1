//! The four headings a snake can travel in, their inverses, and the mapping
//! from raw input codes to headings.

use vstd::prelude::*;

verus! {

/// One of the four headings on the grid.
#[derive(Clone, Copy, Debug, PartialEq, Eq, Structural)]
pub enum Direction {
    Up,
    Down,
    Left,
    Right,
}

/// Input code for the up arrow key.
pub const KEY_ARROW_UP: u32 = 0;
/// Input code for the down arrow key.
pub const KEY_ARROW_DOWN: u32 = 1;
/// Input code for the left arrow key.
pub const KEY_ARROW_LEFT: u32 = 2;
/// Input code for the right arrow key.
pub const KEY_ARROW_RIGHT: u32 = 3;
/// Input code for the W key.
pub const KEY_W: u32 = 4;
/// Input code for the A key.
pub const KEY_A: u32 = 5;
/// Input code for the S key.
pub const KEY_S: u32 = 6;
/// Input code for the D key.
pub const KEY_D: u32 = 7;

/// The heading that an input code selects, if any. Arrow keys and their
/// WASD equivalents map to the four headings; every other code maps to
/// nothing.
pub open spec fn input_direction(code: u32) -> Option<Direction> {
    if code == KEY_ARROW_UP || code == KEY_W {
        Some(Direction::Up)
    } else if code == KEY_ARROW_DOWN || code == KEY_S {
        Some(Direction::Down)
    } else if code == KEY_ARROW_LEFT || code == KEY_A {
        Some(Direction::Left)
    } else if code == KEY_ARROW_RIGHT || code == KEY_D {
        Some(Direction::Right)
    } else {
        None
    }
}

impl Direction {
    /// The opposite heading: up and down swap, left and right swap.
    pub open spec fn spec_inverse(self) -> Direction {
        match self {
            Direction::Up => Direction::Down,
            Direction::Down => Direction::Up,
            Direction::Left => Direction::Right,
            Direction::Right => Direction::Left,
        }
    }

    /// The opposite heading: up and down swap, left and right swap.
    #[verifier::when_used_as_spec(spec_inverse)]
    pub fn inverse(self) -> (r: Direction)
        ensures
            r == self.spec_inverse(),
    {
        match self {
            Direction::Up => Direction::Down,
            Direction::Down => Direction::Up,
            Direction::Left => Direction::Right,
            Direction::Right => Direction::Left,
        }
    }

    /// Maps a raw input code to a heading; unmapped codes are reported as
    /// `None`.
    pub fn from_input(code: u32) -> (r: Option<Direction>)
        ensures
            r == input_direction(code),
    {
        if code == KEY_ARROW_UP || code == KEY_W {
            Some(Direction::Up)
        } else if code == KEY_ARROW_DOWN || code == KEY_S {
            Some(Direction::Down)
        } else if code == KEY_ARROW_LEFT || code == KEY_A {
            Some(Direction::Left)
        } else if code == KEY_ARROW_RIGHT || code == KEY_D {
            Some(Direction::Right)
        } else {
            None
        }
    }
}

/// Taking the inverse heading twice leads back to the starting heading.
pub proof fn lemma_inverse_involution(d: Direction)
    ensures
        d.spec_inverse().spec_inverse() == d,
{
}

} // verus!
