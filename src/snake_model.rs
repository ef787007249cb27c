use crate::chance::random_in_range;
use crate::grid_world::{
    can_move, intersect, intersection, moved, occupies, same_cell, Color, Direction, GridPoint,
    GridWorld, GridWorldEntity,
};
use crate::policy::Policy;
use std::collections::VecDeque;
use vstd::prelude::*;

verus! {

/// Lower bound (inclusive) of each coordinate of a relocated apple.
pub const APPLE_RANGE_LOW: i32 = -200;

/// Upper bound (exclusive) of each coordinate of a relocated apple.
pub const APPLE_RANGE_HIGH: i32 = 200;

/// The single cell the snake is after.
#[derive(Debug)]
pub struct Apple {
    pub position: GridPoint,
}

impl GridWorldEntity for Apple {
    open spec fn cells(&self) -> Seq<GridPoint> {
        seq![self.position]
    }

    fn get_grid_cells(&self) -> (r: Vec<GridPoint>) {
        vec![self.position]
    }
}

/// The snake's body, head first and tail last.
#[derive(Debug)]
pub struct Snake {
    pub position: VecDeque<GridPoint>,
}

impl GridWorldEntity for Snake {
    open spec fn cells(&self) -> Seq<GridPoint> {
        self.position@
    }

    fn get_grid_cells(&self) -> (r: Vec<GridPoint>) {
        let mut r: Vec<GridPoint> = Vec::new();
        let mut i: usize = 0;
        while i < self.position.len()
            invariant
                0 <= i <= self.position@.len(),
                r@ == self.position@.subrange(0, i as int),
            decreases self.position@.len() - i,
        {
            r.push(self.position[i]);
            i = i + 1;
        }
        assert(r@ =~= self.position@);
        r
    }
}

/// The body after one step in `d`: a new head in front of the old one, and
/// the tail dropped unless the snake grows.
pub open spec fn advanced(body: Seq<GridPoint>, d: Direction, grow: bool) -> Seq<GridPoint>
    recommends
        body.len() > 0,
        can_move(body[0], d),
{
    let longer = seq![moved(body[0], d)] + body;
    if grow {
        longer
    } else {
        longer.drop_last()
    }
}

impl Snake {
    /// Moves the head one step in `direction`; the tail stays only when
    /// `hit_apple` holds.
    pub fn update(&mut self, direction: Direction, hit_apple: bool)
        requires
            old(self).position@.len() > 0,
            can_move(old(self).position@[0], direction),
        ensures
            final(self).position@ == advanced(old(self).position@, direction, hit_apple),
    {
        let front = self.position[0];
        self.position.push_front(front.move_in_dir(direction));
        if !hit_apple {
            self.position.pop_back();
        }
    }
}

/// A step keeps the length, or adds one when the snake grows, and puts the
/// head one move from the old head.
pub proof fn lemma_advanced(body: Seq<GridPoint>, d: Direction, grow: bool)
    requires
        body.len() > 0,
        can_move(body[0], d),
    ensures
        grow ==> advanced(body, d, grow).len() == body.len() + 1,
        !grow ==> advanced(body, d, grow).len() == body.len(),
        advanced(body, d, grow)[0] == moved(body[0], d),
{
}

/// The snake and the apple of one game.
pub struct SnakeGameModel {
    pub snake: Snake,
    pub apple: Apple,
}

/// The snake at the start of a game: six red cells on the row `y == 1`, head
/// at `x == 1` and tail at `x == -4`.
pub open spec fn initial_snake() -> Seq<GridPoint> {
    let red = Color { r: 255, g: 0, b: 0 };
    seq![
        GridPoint { x: 1, y: 1, color: red },
        GridPoint { x: 0, y: 1, color: red },
        GridPoint { x: -1i32, y: 1, color: red },
        GridPoint { x: -2i32, y: 1, color: red },
        GridPoint { x: -3i32, y: 1, color: red },
        GridPoint { x: -4i32, y: 1, color: red },
    ]
}

/// The apple at the start of a game: a green cell at `(10, 10)`.
pub open spec fn initial_apple() -> GridPoint {
    GridPoint { x: 10, y: 10, color: Color { r: 0, g: 128, b: 0 } }
}

/// The head can take a step in each of the four directions.
pub open spec fn roomy(p: GridPoint) -> bool {
    i32::MIN < p.x < i32::MAX && i32::MIN < p.y < i32::MAX
}

/// Whether some cell of the snake is the apple's cell.
pub open spec fn on_apple(m: SnakeGameModel) -> bool {
    occupies(m.snake.position@, m.apple.position)
}

/// `next` is `prev` after one tick in direction `d`: the snake steps and grows
/// when it stood on the apple before the step; the apple then moves to a cell
/// of the relocation range in the same color, and otherwise stays.
pub open spec fn ticked(prev: SnakeGameModel, next: SnakeGameModel, d: Direction) -> bool {
    &&& next.snake.position@ == advanced(prev.snake.position@, d, on_apple(prev))
    &&& if on_apple(prev) {
        &&& APPLE_RANGE_LOW <= next.apple.position.x < APPLE_RANGE_HIGH
        &&& APPLE_RANGE_LOW <= next.apple.position.y < APPLE_RANGE_HIGH
        &&& next.apple.position.color == prev.apple.position.color
    } else {
        next.apple.position == prev.apple.position
    }
}

proof fn lemma_hit_single(body: Seq<GridPoint>, a: GridPoint)
    ensures
        (intersection(body, seq![a]).len() > 0) == occupies(body, a),
{
    reveal_with_fuel(Seq::filter, 2);
    assert(seq![a].drop_last() =~= Seq::<GridPoint>::empty());
}

impl SnakeGameModel {
    /// One tick: asks `policy` for a direction, moves the snake, grows it if
    /// it stood on the apple, and then puts the apple somewhere at random.
    pub fn update<P: Policy<SnakeGameModel, Direction>>(&mut self, policy: &mut P)
        requires
            old(self).snake.position@.len() > 0,
            roomy(old(self).snake.position@[0]),
            old(policy).ready(&*old(self)),
        ensures
            exists|d: Direction|
                old(policy).may_choose(&*old(self), d) && ticked(*old(self), *final(self), d),
    {
        let ghost prev = *self;
        let next_dir = policy.get_action(&*self);
        let hit_apple = intersect(&self.snake, &self.apple).len() > 0;
        proof {
            lemma_hit_single(self.snake.position@, self.apple.position);
        }
        self.snake.update(next_dir, hit_apple);
        if hit_apple {
            self.apple.position.x = random_in_range(APPLE_RANGE_LOW, APPLE_RANGE_HIGH);
            self.apple.position.y = random_in_range(APPLE_RANGE_LOW, APPLE_RANGE_HIGH);
        }
        assert(ticked(prev, *self, next_dir));
    }

    /// A new game in its initial state.
    pub fn new_snake_model() -> (r: SnakeGameModel)
        ensures
            r.snake.position@ == initial_snake(),
            r.apple.position == initial_apple(),
    {
        let snake_color = Color { r: 255, g: 0, b: 0 };
        let apple_color = Color { r: 0, g: 128, b: 0 };
        let mut position: VecDeque<GridPoint> = VecDeque::new();
        position.push_back(GridPoint { x: 1, y: 1, color: snake_color });
        position.push_back(GridPoint { x: 0, y: 1, color: snake_color });
        position.push_back(GridPoint { x: -1, y: 1, color: snake_color });
        position.push_back(GridPoint { x: -2, y: 1, color: snake_color });
        position.push_back(GridPoint { x: -3, y: 1, color: snake_color });
        position.push_back(GridPoint { x: -4, y: 1, color: snake_color });
        assert(position@ =~= initial_snake());
        SnakeGameModel {
            snake: Snake { position },
            apple: Apple { position: GridPoint { x: 10, y: 10, color: apple_color } },
        }
    }
}

impl GridWorld for SnakeGameModel {
    open spec fn world_cells(&self) -> Seq<GridPoint> {
        self.snake.cells() + self.apple.cells()
    }

    fn get_grid_cells(&self) -> (r: Vec<GridPoint>) {
        let mut r = self.snake.get_grid_cells();
        r.push(self.apple.position);
        assert(r@ =~= self.snake.cells() + self.apple.cells());
        r
    }
}

} // verus!
