use crate::chance::choose_one;
use crate::grid_world::{can_move, moved, occupied, occupies, Direction, GridPoint, GridWorldEntity};
use crate::policy::Policy;
use crate::snake_model::SnakeGameModel;
use vstd::prelude::*;

verus! {

/// Always heads right.
pub struct GoForwardPolicy {}

impl Policy<SnakeGameModel, Direction> for GoForwardPolicy {
    open spec fn ready(&self, model: &SnakeGameModel) -> bool {
        true
    }

    open spec fn may_choose(&self, model: &SnakeGameModel, action: Direction) -> bool {
        action == Direction::Right
    }

    fn get_action(&mut self, _model: &SnakeGameModel) -> (action: Direction) {
        Direction::Right
    }
}

/// A step from the head in direction `d` stays in range and lands on no cell
/// of the snake.
pub open spec fn is_free(body: Seq<GridPoint>, d: Direction) -> bool {
    &&& can_move(body[0], d)
    &&& !occupies(body, moved(body[0], d))
}

/// Some step from the head is free.
pub open spec fn has_free_step(body: Seq<GridPoint>) -> bool {
    exists|d: Direction| is_free(body, d)
}

/// Draws a direction at random among those whose step is free; when the head
/// is boxed in on all four sides it heads right.
pub struct RandomPolicy {}

impl Policy<SnakeGameModel, Direction> for RandomPolicy {
    open spec fn ready(&self, model: &SnakeGameModel) -> bool {
        model.snake.position@.len() > 0
    }

    open spec fn may_choose(&self, model: &SnakeGameModel, action: Direction) -> bool {
        if has_free_step(model.snake.position@) {
            is_free(model.snake.position@, action)
        } else {
            action == Direction::Right
        }
    }

    fn get_action(&mut self, model: &SnakeGameModel) -> (action: Direction)
        ensures
            has_free_step(model.snake.position@) ==> is_free(model.snake.position@, action),
    {
        let body = model.snake.get_grid_cells();
        let free = free_directions(&body);
        proof {
            broadcast use vstd::seq_lib::group_filter_ensures;

            assert forall|d: Direction| is_free(body@, d) implies free@.contains(d) by {
                let options = all_directions();
                let k: int = match d {
                    Direction::Up => 0,
                    Direction::Left => 1,
                    Direction::Right => 2,
                    Direction::Down => 3,
                };
                assert(options[k] == d);
            }
        }
        if free.len() == 0 {
            Direction::Right
        } else {
            choose_one(&free)
        }
    }
}

/// The four directions, in the order in which they are tried.
pub open spec fn all_directions() -> Seq<Direction> {
    seq![Direction::Up, Direction::Left, Direction::Right, Direction::Down]
}

/// The directions, in the order Up, Left, Right, Down, in which a step from
/// the head (the first cell of `body`) is free.
pub fn free_directions(body: &Vec<GridPoint>) -> (r: Vec<Direction>)
    requires
        body@.len() > 0,
    ensures
        r@ == all_directions().filter(|d: Direction| is_free(body@, d)),
{
    let head = body[0];
    let options = vec![Direction::Up, Direction::Left, Direction::Right, Direction::Down];
    let mut free: Vec<Direction> = Vec::new();
    let mut i: usize = 0;
    while i < options.len()
        invariant
            0 <= i <= options@.len(),
            body@.len() > 0,
            head == body@[0],
            options@ == all_directions(),
            free@ == options@.subrange(0, i as int).filter(|d: Direction| is_free(body@, d)),
        decreases options@.len() - i,
    {
        let d = options[i];
        let step_free = head.can_move_in_dir(d) && !occupied(body, &head.move_in_dir(d));
        proof {
            let pre = options@.subrange(0, i as int + 1);
            assert(pre.drop_last() =~= options@.subrange(0, i as int));
            assert(pre.last() == d);
            reveal(Seq::filter);
        }
        if step_free {
            free.push(d);
        }
        i = i + 1;
    }
    assert(options@.subrange(0, i as int) =~= options@);
    free
}

/// The direction of the held arrow keys, by the precedence Left, Right,
/// Down, Up; none when no arrow key is held.
pub fn pressed_direction(left: bool, right: bool, down: bool, up: bool) -> (r: Option<Direction>)
    ensures
        r == (if left {
            Some(Direction::Left)
        } else if right {
            Some(Direction::Right)
        } else if down {
            Some(Direction::Down)
        } else if up {
            Some(Direction::Up)
        } else {
            None
        }),
{
    if left {
        Some(Direction::Left)
    } else if right {
        Some(Direction::Right)
    } else if down {
        Some(Direction::Down)
    } else if up {
        Some(Direction::Up)
    } else {
        None
    }
}

/// Heads the way of the key pressed in this tick, and else the way it went
/// last.
pub struct KeyboardPolicy {
    pub last_direction: Direction,
    pub key_direction: Option<Direction>,
}

impl Policy<SnakeGameModel, Direction> for KeyboardPolicy {
    open spec fn ready(&self, model: &SnakeGameModel) -> bool {
        true
    }

    open spec fn may_choose(&self, model: &SnakeGameModel, action: Direction) -> bool {
        match self.key_direction {
            Some(k) => action == k,
            None => action == self.last_direction,
        }
    }

    fn get_action(&mut self, _model: &SnakeGameModel) -> (action: Direction) {
        match self.key_direction {
            Some(k) => k,
            None => self.last_direction,
        }
    }
}

} // verus!
