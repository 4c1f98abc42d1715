//! The opportunist strategy: a random safe move, preferring moves that
//! land on food when any safe one does.

use vstd::prelude::*;

use crate::model::{coords_contain, step, step_room, Board, Direction, Snake};
use crate::snake_factory::SnakeInfo;
use crate::utils::random_move;

verus! {

/// A snake that moves randomly but grabs food whenever a safe
/// direction lands on it.
#[derive(Clone, Copy, Debug, PartialEq, Eq, Structural)]
pub struct OpportunistSnake;

impl OpportunistSnake {
    pub fn new() -> (r: Self)
        ensures
            r == OpportunistSnake,
    {
        OpportunistSnake
    }

    /// The static identity metadata shown by the info endpoint.
    pub fn info(&self) -> (r: SnakeInfo)
        ensures
            r.apiversion@ == "1"@,
            r.author@ == "efrenfuentes"@,
            r.color@ == "#c47ee0"@,
            r.head@ == "silly"@,
            r.tail@ == "mlh-gene"@,
    {
        SnakeInfo {
            apiversion: "1".to_owned(),
            author: "efrenfuentes".to_owned(),
            color: "#c47ee0".to_owned(),
            head: "silly".to_owned(),
            tail: "mlh-gene".to_owned(),
        }
    }

    /// Choose uniformly among the safe directions that land on food;
    /// when none does, fall back to a uniformly random safe direction,
    /// and to the fixed default `Up` when nothing is safe.
    pub fn choose_move(&self, board: &Board, snake: &Snake, safe_moves: Vec<Direction>) -> (r:
        Direction)
        requires
            snake.body@.len() >= 1,
            step_room(snake.body@[0]),
        ensures
            safe_moves@.len() > 0 ==> safe_moves@.contains(r),
            safe_moves@.len() == 0 ==> r == Direction::Up,
            (exists|i: int|
                0 <= i < safe_moves@.len() && board.food@.contains(
                    step(snake.body@[0], #[trigger] safe_moves@[i]),
                )) ==> board.food@.contains(step(snake.body@[0], r)),
    {
        let head = snake.body[0];
        let mut moves_with_food: Vec<Direction> = Vec::new();
        let mut i: usize = 0;
        while i < safe_moves.len()
            invariant
                0 <= i <= safe_moves@.len(),
                step_room(head),
                head == snake.body@[0],
                forall|k: int|
                    0 <= k < moves_with_food@.len() ==> safe_moves@.contains(
                        #[trigger] moves_with_food@[k],
                    ) && board.food@.contains(step(head, moves_with_food@[k])),
                forall|j: int|
                    0 <= j < i ==> (board.food@.contains(step(head, #[trigger] safe_moves@[j]))
                        ==> moves_with_food@.len() > 0),
            decreases safe_moves@.len() - i,
        {
            let d = safe_moves[i];
            let target = head.move_to(&d);
            if coords_contain(&board.food, target) {
                moves_with_food.push(d);
            }
            i += 1;
        }
        if moves_with_food.len() > 0 {
            random_move(moves_with_food)
        } else {
            random_move(safe_moves)
        }
    }
}

} // verus!
