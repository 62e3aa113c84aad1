//! The snake and its per-tick state machine: movement, growth, eating and
//! self-collision detection, and the buffered-direction arbitration that
//! limits heading changes to one per tick.

use vstd::prelude::*;

use crate::direction::Direction;
use crate::food::{Ate, Food};
use crate::grid_position::{move_in, GridPosition};

verus! {

/// One occupied grid cell of the snake's body. Two segments on the same
/// cell are indistinguishable: a segment has no identity beyond its
/// position.
#[derive(Clone, Copy, Debug, PartialEq, Eq, Structural)]
pub struct Segment {
    pub pos: GridPosition,
}

impl Segment {
    /// Places a segment on the given cell.
    pub fn new(pos: GridPosition) -> (r: Segment)
        ensures
            r.pos == pos,
    {
        Segment { pos }
    }
}

/// The mathematical value of a snake: the head cell, the body cells in
/// head-to-tail order (the front element is the cell most recently vacated
/// by the head), the heading for the next tick, the heading used on the
/// most recent tick, the pending heading change, and the outcome of the
/// most recent tick.
#[verifier::ext_equal]
pub ghost struct SnakeModel {
    pub head: GridPosition,
    pub body: Seq<GridPosition>,
    pub dir: Direction,
    pub last_update_dir: Direction,
    pub buffered_dir: Option<Direction>,
    pub ate: Option<Ate>,
}

impl SnakeModel {
    /// Well-formedness on a `width x height` grid: the body is never empty
    /// and every cell of the snake lies on the grid.
    pub open spec fn wf(self, width: u8, height: u8) -> bool {
        &&& self.body.len() >= 1
        &&& self.head.in_bounds(width, height)
        &&& forall|i: int| 0 <= i < self.body.len() ==> self.body[i].in_bounds(width, height)
    }
}

/// The first step of a tick: if the heading has not changed since the last
/// tick and a buffered heading is pending, the buffered heading becomes the
/// current one and the buffer is cleared. Otherwise the snake is left as it
/// is.
pub open spec fn promote_buffered(s: SnakeModel) -> SnakeModel {
    match s.buffered_dir {
        Some(b) => if s.last_update_dir == s.dir {
            SnakeModel {
                head: s.head,
                body: s.body,
                dir: b,
                last_update_dir: s.last_update_dir,
                buffered_dir: None,
                ate: s.ate,
            }
        } else {
            s
        },
        None => s,
    }
}

/// One tick of the snake on a `width x height` grid with food at
/// `food_pos`: promote any buffered heading, step the head one cell in the
/// heading, and push the old head cell onto the front of the body. If the
/// new head cell is occupied by the grown body, the tick ends there with
/// outcome `Itself`: the tail stays and the committed heading is not
/// updated. If the new head cell holds the food, the tail also stays and
/// the body has grown by one cell, with outcome `Food`. Otherwise the tail
/// cell is dropped, keeping the length unchanged, with outcome `None`.
pub open spec fn update_model(
    s: SnakeModel,
    food_pos: GridPosition,
    width: u8,
    height: u8,
) -> SnakeModel {
    let p = promote_buffered(s);
    let new_head = move_in(p.head, p.dir, width, height);
    let pushed = seq![p.head] + p.body;
    if pushed.contains(new_head) {
        SnakeModel {
            head: new_head,
            body: pushed,
            dir: p.dir,
            last_update_dir: p.last_update_dir,
            buffered_dir: p.buffered_dir,
            ate: Some(Ate::Itself),
        }
    } else if new_head == food_pos {
        SnakeModel {
            head: new_head,
            body: pushed,
            dir: p.dir,
            last_update_dir: p.dir,
            buffered_dir: p.buffered_dir,
            ate: Some(Ate::Food),
        }
    } else {
        SnakeModel {
            head: new_head,
            body: pushed.drop_last(),
            dir: p.dir,
            last_update_dir: p.dir,
            buffered_dir: p.buffered_dir,
            ate: None,
        }
    }
}

/// One key press with candidate heading `d`. If the heading has already
/// changed since the last tick and `d` does not reverse the queued heading,
/// `d` is buffered for the tick after next, overwriting any earlier buffer.
/// Otherwise, if `d` does not reverse the heading of the last tick, it
/// becomes the heading for the next tick. A press that would reverse the
/// snake into its own neck is dropped.
pub open spec fn press_model(s: SnakeModel, d: Direction) -> SnakeModel {
    if s.dir != s.last_update_dir && d.spec_inverse() != s.dir {
        SnakeModel {
            head: s.head,
            body: s.body,
            dir: s.dir,
            last_update_dir: s.last_update_dir,
            buffered_dir: Some(d),
            ate: s.ate,
        }
    } else if d.spec_inverse() != s.last_update_dir {
        SnakeModel {
            head: s.head,
            body: s.body,
            dir: d,
            last_update_dir: s.last_update_dir,
            buffered_dir: s.buffered_dir,
            ate: s.ate,
        }
    } else {
        s
    }
}

/// The snake: its head, its body segments in head-to-tail order, the
/// heading for the next tick, the heading used on the most recent tick, at
/// most one buffered heading change, and the outcome of the most recent
/// tick.
pub struct Snake {
    pub head: Segment,
    pub dir: Direction,
    pub body: Vec<Segment>,
    pub ate: Option<Ate>,
    pub last_update_dir: Direction,
    pub buffered_dir: Option<Direction>,
}

impl View for Snake {
    type V = SnakeModel;

    open spec fn view(&self) -> SnakeModel {
        SnakeModel {
            head: self.head.pos,
            body: self.body@.map_values(|s: Segment| s.pos),
            dir: self.dir,
            last_update_dir: self.last_update_dir,
            buffered_dir: self.buffered_dir,
            ate: self.ate,
        }
    }
}

impl Snake {
    /// A freshly spawned snake: its head on `pos`, one body segment on the
    /// cell directly to the left of `pos`, heading right, with no buffered
    /// heading and nothing eaten yet.
    pub fn new(pos: GridPosition) -> (r: Snake)
        requires
            pos.x >= 1,
        ensures
            r@.head == pos,
            r@.body == seq![GridPosition { x: (pos.x - 1) as u8, y: pos.y }],
            r@.dir == Direction::Right,
            r@.last_update_dir == Direction::Right,
            r@.buffered_dir is None,
            r@.ate is None,
    {
        let mut body: Vec<Segment> = Vec::new();
        body.push(Segment::new(GridPosition::new(pos.x - 1, pos.y)));
        let r = Snake {
            head: Segment::new(pos),
            dir: Direction::Right,
            last_update_dir: Direction::Right,
            body,
            ate: None,
            buffered_dir: None,
        };
        proof {
            assert(r@.body =~= seq![GridPosition { x: (pos.x - 1) as u8, y: pos.y }]);
        }
        r
    }

    /// Whether the snake's head is on the food's cell.
    pub fn eats(&self, food: &Food) -> (r: bool)
        ensures
            r == (self@.head == food.pos),
    {
        self.head.pos == food.pos
    }

    /// Whether the snake's head is on a cell occupied by its body.
    pub fn eats_self(&self) -> (r: bool)
        ensures
            r == self@.body.contains(self@.head),
    {
        let mut i: usize = 0;
        while i < self.body.len()
            invariant
                i <= self.body.len(),
                forall|j: int| 0 <= j < i ==> self.body@[j].pos != self.head.pos,
            decreases self.body.len() - i,
        {
            if self.body[i].pos == self.head.pos {
                proof {
                    assert(self@.body[i as int] == self@.head);
                }
                return true;
            }
            i = i + 1;
        }
        proof {
            assert(forall|j: int| 0 <= j < self@.body.len() ==> self@.body[j] != self@.head);
        }
        false
    }

    /// One tick of the snake, as described by [`update_model`]: the head
    /// advances one cell in the (possibly just promoted) heading, the body
    /// follows, and the outcome of the tick is recorded in `ate`.
    pub fn update(&mut self, food: &Food, width: u8, height: u8)
        requires
            old(self)@.wf(width, height),
        ensures
            final(self)@ == update_model(old(self)@, food.pos, width, height),
            final(self)@.wf(width, height),
    {
        let ghost m0 = self@;
        if self.last_update_dir == self.dir {
            if let Some(b) = self.buffered_dir {
                self.dir = b;
                self.buffered_dir = None;
            }
        }
        proof {
            assert(self@ =~= promote_buffered(m0));
        }
        let ghost p = promote_buffered(m0);
        let new_head_pos = GridPosition::new_from_move(self.head.pos, self.dir, width, height);
        let new_head = Segment::new(new_head_pos);
        self.body.insert(0, self.head);
        self.head = new_head;
        proof {
            assert(self@.body =~= seq![p.head] + p.body);
            assert forall|i: int| 0 <= i < self@.body.len() implies self@.body[i].in_bounds(
                width,
                height,
            ) by {
                if i > 0 {
                    assert(self@.body[i] == p.body[i - 1]);
                }
            }
        }
        if self.eats_self() {
            self.ate = Some(Ate::Itself);
            proof {
                assert(self@ =~= update_model(m0, food.pos, width, height));
            }
            return;
        }
        if self.eats(food) {
            self.ate = Some(Ate::Food);
        } else {
            self.ate = None;
            self.body.pop();
            proof {
                assert(self@.body =~= (seq![p.head] + p.body).drop_last());
            }
        }
        self.last_update_dir = self.dir;
        proof {
            assert(self@ =~= update_model(m0, food.pos, width, height));
        }
    }

    /// One key press with candidate heading `d`, arbitrated as described by
    /// [`press_model`]: at most one heading change takes effect per tick,
    /// a second change is buffered for the following tick, and a press that
    /// would reverse the snake into its own neck is dropped.
    pub fn key_press(&mut self, d: Direction)
        ensures
            final(self)@ == press_model(old(self)@, d),
    {
        if self.dir != self.last_update_dir && d.inverse() != self.dir {
            self.buffered_dir = Some(d);
        } else if d.inverse() != self.last_update_dir {
            self.dir = d;
        }
    }
}

/// Growth is governed by the outcome of the tick: eating food grows the
/// body by exactly one cell, an ordinary move keeps the length unchanged,
/// and the terminal self-collision tick also keeps the pushed neck cell, so
/// the body it reports is one cell longer than before.
pub proof fn lemma_growth(s: SnakeModel, food_pos: GridPosition, width: u8, height: u8)
    ensures
        update_model(s, food_pos, width, height).ate == Some(Ate::Food) ==> update_model(
            s,
            food_pos,
            width,
            height,
        ).body.len() == s.body.len() + 1,
        update_model(s, food_pos, width, height).ate is None ==> update_model(
            s,
            food_pos,
            width,
            height,
        ).body.len() == s.body.len(),
        update_model(s, food_pos, width, height).ate == Some(Ate::Itself) ==> update_model(
            s,
            food_pos,
            width,
            height,
        ).body.len() == s.body.len() + 1,
{
}

/// Self-collision is detected: if the cell the head moves onto is already
/// occupied by a body segment from before the tick, the tick reports that
/// the snake ate itself.
pub proof fn lemma_self_collision(s: SnakeModel, food_pos: GridPosition, width: u8, height: u8)
    requires
        s.body.contains(
            move_in(promote_buffered(s).head, promote_buffered(s).dir, width, height),
        ),
    ensures
        update_model(s, food_pos, width, height).ate == Some(Ate::Itself),
{
    let p = promote_buffered(s);
    let new_head = move_in(p.head, p.dir, width, height);
    let i = choose|i: int| 0 <= i < s.body.len() && s.body[i] == new_head;
    assert((seq![p.head] + p.body)[i + 1] == new_head);
}

/// A tick preserves well-formedness: the snake that comes out of
/// [`update_model`] again has a non-empty body and lies entirely on the
/// grid.
pub proof fn lemma_update_model_wf(s: SnakeModel, food_pos: GridPosition, width: u8, height: u8)
    requires
        s.wf(width, height),
    ensures
        update_model(s, food_pos, width, height).wf(width, height),
{
    let p = promote_buffered(s);
    let pushed = seq![p.head] + p.body;
    crate::grid_position::lemma_move_in_bounds(p.head, p.dir, width, height);
    assert forall|i: int| 0 <= i < pushed.len() implies pushed[i].in_bounds(width, height) by {
        if i > 0 {
            assert(pushed[i] == s.body[i - 1]);
        }
    }
}

/// Pressing the direct inverse of a stable heading is dropped: when the
/// heading has not changed since the last tick, such a press leaves the
/// snake unchanged.
pub proof fn lemma_press_inverse_dropped(s: SnakeModel, d: Direction)
    requires
        s.dir == s.last_update_dir,
        d == s.dir.spec_inverse(),
    ensures
        press_model(s, d) == s,
{
}

/// Pressing a valid turn while the heading is stable sets the heading for
/// the next tick immediately, and touches nothing else.
pub proof fn lemma_press_turn(s: SnakeModel, d: Direction)
    requires
        s.dir == s.last_update_dir,
        d.spec_inverse() != s.last_update_dir,
    ensures
        press_model(s, d).dir == d,
        press_model(s, d).buffered_dir == s.buffered_dir,
        press_model(s, d).last_update_dir == s.last_update_dir,
        press_model(s, d).head == s.head,
        press_model(s, d).body == s.body,
{
}

/// Two valid turns pressed within one tick window: the first takes effect
/// on the next tick, the second is buffered — never lost, never applied
/// early — and becomes the heading exactly one tick later.
pub proof fn lemma_buffered_direction(
    s: SnakeModel,
    d1: Direction,
    d2: Direction,
    food1: GridPosition,
    food2: GridPosition,
    width: u8,
    height: u8,
)
    requires
        s.dir == s.last_update_dir,
        d1 != s.last_update_dir,
        d1.spec_inverse() != s.last_update_dir,
        d2.spec_inverse() != d1,
    ensures
        ({
            let pressed = press_model(press_model(s, d1), d2);
            let t1 = update_model(pressed, food1, width, height);
            let t2 = update_model(t1, food2, width, height);
            &&& pressed.dir == d1
            &&& pressed.buffered_dir == Some(d2)
            &&& t1.dir == d1
            &&& t1.buffered_dir == Some(d2)
            &&& t1.ate != Some(Ate::Itself) ==> t2.dir == d2 && t2.buffered_dir is None
        }),
{
}

} // verus!

