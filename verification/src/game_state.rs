//! The whole game: a snake, a piece of food and a game-over latch. A front
//! end feeds it ticks and key presses; once the snake has eaten itself, the
//! latch is set and every further tick leaves the game untouched.

use vstd::prelude::*;

use crate::direction::{input_direction, Direction};
use crate::food::{Ate, Food};
use crate::grid_position::GridPosition;
use crate::snake::{press_model, update_model, Snake};

verus! {

/// The state of one game session on a fixed `width x height` grid.
pub struct GameState {
    pub snake: Snake,
    pub food: Food,
    pub gameover: bool,
    pub width: u8,
    pub height: u8,
}

impl GameState {
    /// Well-formedness: the snake and the food lie on the grid and the
    /// snake's body is never empty.
    pub open spec fn wf(self) -> bool {
        &&& self.snake@.wf(self.width, self.height)
        &&& self.food.pos.in_bounds(self.width, self.height)
    }

    /// Sets up a fresh game on a `width x height` grid: the snake spawns a
    /// quarter of the way across and half way down, heading right, and the
    /// food lands on a uniformly chosen cell, which may coincide with the
    /// snake.
    pub fn new(width: u8, height: u8) -> (r: GameState)
        requires
            width >= 4,
            height >= 1,
        ensures
            r.wf(),
            r.width == width,
            r.height == height,
            !r.gameover,
            r.snake@.head == (GridPosition { x: (width / 4) as u8, y: (height / 2) as u8 }),
            r.snake@.body == seq![
                GridPosition { x: (width / 4 - 1) as u8, y: (height / 2) as u8 },
            ],
            r.snake@.dir == Direction::Right,
            r.snake@.last_update_dir == Direction::Right,
            r.snake@.buffered_dir is None,
            r.snake@.ate is None,
            r.food.pos.in_bounds(width, height),
    {
        let snake_pos = GridPosition::new(width / 4, height / 2);
        let food_pos = GridPosition::random(width, height);
        GameState {
            snake: Snake::new(snake_pos),
            food: Food::new(food_pos),
            gameover: false,
            width,
            height,
        }
    }

    /// One tick of the game. After game over nothing moves. Otherwise the
    /// snake takes one step of [`update_model`]; eating food moves the food
    /// to a fresh uniformly chosen cell, and eating itself sets the
    /// game-over latch for good.
    pub fn update(&mut self)
        requires
            old(self).wf(),
        ensures
            final(self).wf(),
            final(self).width == old(self).width,
            final(self).height == old(self).height,
            old(self).gameover ==> final(self).gameover && final(self).snake@ == old(
                self,
            ).snake@ && final(self).food.pos == old(self).food.pos,
            !old(self).gameover ==> ({
                let m = update_model(
                    old(self).snake@,
                    old(self).food.pos,
                    old(self).width,
                    old(self).height,
                );
                &&& final(self).snake@ == m
                &&& (final(self).gameover <==> m.ate == Some(Ate::Itself))
                &&& (m.ate == Some(Ate::Food) ==> final(self).food.pos.in_bounds(
                    old(self).width,
                    old(self).height,
                ))
                &&& (m.ate != Some(Ate::Food) ==> final(self).food.pos == old(self).food.pos)
            }),
    {
        if self.gameover {
            return ;
        }
        self.snake.update(&self.food, self.width, self.height);
        match self.snake.ate {
            Some(Ate::Food) => {
                self.food.relocate(self.width, self.height);
            },
            Some(Ate::Itself) => {
                self.gameover = true;
            },
            None => {},
        }
    }

    /// One key press, given as a raw input code. A code that maps to a
    /// heading is arbitrated by [`press_model`]; any other code, and
    /// everything besides the snake's heading state, is left untouched.
    pub fn key_down(&mut self, code: u32)
        ensures
            input_direction(code) matches Some(d) ==> final(self).snake@ == press_model(
                old(self).snake@,
                d,
            ),
            input_direction(code) is None ==> final(self).snake@ == old(self).snake@,
            final(self).food.pos == old(self).food.pos,
            final(self).gameover == old(self).gameover,
            final(self).width == old(self).width,
            final(self).height == old(self).height,
            old(self).wf() ==> final(self).wf(),
    {
        if let Some(d) = Direction::from_input(code) {
            self.snake.key_press(d);
        }
    }
}

} // verus!
