//! The strategy registry: a fixed table from strategy names to the
//! three strategies, with the opportunist as the documented default
//! for unrecognized names, and the single decision entry point that
//! narrows the evaluator's safe set to one chosen direction.

pub mod hungry;
pub mod opportunist;
pub mod random;

use vstd::prelude::*;

use crate::model::{closest_to, dir_toward, distance_fits, in_bounds, manhattan, step, step_room,
    Board, Coord, Direction, Snake};
use crate::moves::{safe_directions_spec, safe_moves};
use crate::utils::str_eq;
use hungry::HungrySnake;
use opportunist::OpportunistSnake;
use random::RandomSnake;

verus! {

/// Static identity metadata of one strategy, consumed by the info
/// endpoint: presentation only, no behavioral role.
pub struct SnakeInfo {
    pub apiversion: String,
    pub author: String,
    pub color: String,
    pub head: String,
    pub tail: String,
}

/// The closed set of strategies: every decision policy the engine
/// offers is one of these three.
#[derive(Clone, Copy, Debug, PartialEq, Eq, Structural)]
pub enum Strategy {
    Random(RandomSnake),
    Opportunist(OpportunistSnake),
    Hungry(HungrySnake),
}

/// The strategy a name resolves to; any unrecognized name resolves to
/// the opportunist, the documented default.
pub open spec fn factory_spec(name: Seq<char>) -> Strategy {
    if name == "hungry"@ {
        Strategy::Hungry(HungrySnake)
    } else if name == "opportunist"@ {
        Strategy::Opportunist(OpportunistSnake)
    } else if name == "random"@ {
        Strategy::Random(RandomSnake)
    } else {
        Strategy::Opportunist(OpportunistSnake)
    }
}

/// Resolve a strategy name; a pure lookup in a fixed table, never a
/// failure.
pub fn factory(snake_type: &str) -> (r: Strategy)
    ensures
        r == factory_spec(snake_type@),
{
    if str_eq(snake_type, "hungry") {
        Strategy::Hungry(HungrySnake::new())
    } else if str_eq(snake_type, "opportunist") {
        Strategy::Opportunist(OpportunistSnake::new())
    } else if str_eq(snake_type, "random") {
        Strategy::Random(RandomSnake::new())
    } else {
        Strategy::Opportunist(OpportunistSnake::new())
    }
}

impl Strategy {
    /// The static identity metadata of this strategy.
    pub fn info(&self) -> (r: SnakeInfo)
        ensures
            r.apiversion@ == "1"@,
            r.author@ == "efrenfuentes"@,
            self matches Strategy::Random(_) ==> r.color@ == "#5095c7"@,
            self matches Strategy::Opportunist(_) ==> r.color@ == "#c47ee0"@,
            self matches Strategy::Hungry(_) ==> r.color@ == "#5095c7"@,
    {
        match self {
            Strategy::Random(s) => s.info(),
            Strategy::Opportunist(s) => s.info(),
            Strategy::Hungry(s) => s.info(),
        }
    }

    /// Narrow the given safe set to one chosen direction by this
    /// strategy's policy.  Every strategy returns a member of a
    /// non-empty safe set, and the fixed default `Up` for an empty
    /// one; the opportunist grabs food whenever a safe direction
    /// lands on it, and the hungry snake walks toward the nearest
    /// food whenever that direction is safe.
    pub fn choose_move(&self, board: &Board, snake: &Snake, safe_moves: Vec<Direction>) -> (r:
        Direction)
        requires
            snake.body@.len() >= 1,
            step_room(snake.body@[0]),
            forall|i: int|
                0 <= i < board.food@.len() ==> distance_fits(
                    snake.body@[0],
                    #[trigger] board.food@[i],
                ),
        ensures
            safe_moves@.len() > 0 ==> safe_moves@.contains(r),
            safe_moves@.len() == 0 ==> r == Direction::Up,
            self matches Strategy::Opportunist(_) ==> ((exists|i: int|
                0 <= i < safe_moves@.len() && board.food@.contains(
                    step(snake.body@[0], #[trigger] safe_moves@[i]),
                )) ==> board.food@.contains(step(snake.body@[0], r))),
            self matches Strategy::Hungry(_) ==> (closest_to(snake.body@[0], board.food@)
                matches Some(t) ==> (safe_moves@.contains(dir_toward(snake.body@[0], t)) ==> r
                == dir_toward(snake.body@[0], t))),
    {
        match self {
            Strategy::Random(s) => s.choose_move(board, snake, safe_moves),
            Strategy::Opportunist(s) => s.choose_move(board, snake, safe_moves),
            Strategy::Hungry(s) => s.choose_move(board, snake, safe_moves),
        }
    }

    /// One full decision: ask the legality evaluator for the safe
    /// directions of this snapshot, then choose among them by this
    /// strategy's policy.
    pub fn get_move(&self, board: &Board, snake: &Snake) -> (r: Direction)
        requires
            snake.body@.len() >= 1,
            in_bounds(snake.body@[0], board.width, board.height),
            forall|i: int|
                0 <= i < board.food@.len() ==> distance_fits(
                    snake.body@[0],
                    #[trigger] board.food@[i],
                ),
        ensures
            safe_directions_spec(*board, *snake).len() > 0 ==> safe_directions_spec(
                *board,
                *snake,
            ).contains(r),
            safe_directions_spec(*board, *snake).len() == 0 ==> r == Direction::Up,
            self matches Strategy::Opportunist(_) ==> ((exists|i: int|
                0 <= i < safe_directions_spec(*board, *snake).len() && board.food@.contains(
                    step(snake.body@[0], #[trigger] safe_directions_spec(*board, *snake)[i]),
                )) ==> board.food@.contains(step(snake.body@[0], r))),
            self matches Strategy::Hungry(_) ==> (closest_to(snake.body@[0], board.food@)
                matches Some(t) ==> (safe_directions_spec(*board, *snake).contains(
                dir_toward(snake.body@[0], t),
            ) ==> r == dir_toward(snake.body@[0], t))),
    {
        let safe = safe_moves(board, snake);
        self.choose_move(board, snake, safe)
    }
}

/// Law: a lone food cell one Manhattan step from the head is the
/// closest food, and the direction toward it, applied to the head,
/// reaches it; so the hungry strategy, when that direction is safe,
/// returns exactly that direction.
pub proof fn lemma_hungry_takes_adjacent_food(head: Coord, food: Coord)
    requires
        step_room(head),
        manhattan(head, food) == 1,
    ensures
        closest_to(head, seq![food]) == Some(food),
        step(head, dir_toward(head, food)) == food,
{
    assert(seq![food].drop_last() =~= Seq::<Coord>::empty());
    assert(closest_to(head, Seq::<Coord>::empty()) is None);
    assert(seq![food].last() == food);
}

} // verus!
