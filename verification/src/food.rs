//! The piece of food on the grid and the possible outcomes of a tick.

use vstd::prelude::*;

use crate::grid_position::GridPosition;

verus! {

/// A piece of food the snake can eat, identified by the cell it occupies.
pub struct Food {
    pub pos: GridPosition,
}

impl Food {
    /// Places a piece of food on the given cell.
    pub fn new(pos: GridPosition) -> (r: Food)
        ensures
            r.pos == pos,
    {
        Food { pos }
    }

    /// Moves the food to a uniformly chosen cell of a `width x height`
    /// grid. The new cell is unconstrained with respect to the snake: it
    /// may land on an occupied cell.
    pub fn relocate(&mut self, width: u8, height: u8)
        requires
            width >= 1,
            height >= 1,
        ensures
            final(self).pos.in_bounds(width, height),
    {
        self.pos = GridPosition::random(width, height);
    }
}

/// What the snake ate during a tick: a piece of food, or itself. A tick on
/// which it ate nothing is reported as `None` at the `Option<Ate>` level.
#[derive(Clone, Copy, Debug, PartialEq, Eq, Structural)]
pub enum Ate {
    Itself,
    Food,
}

} // verus!
