//! The hungry strategy: head straight for the nearest food when the
//! direction toward it is safe.

use vstd::prelude::*;

use crate::model::{closest_to, dir_toward, dirs_contain, distance_fits, Board, Direction, Snake};
use crate::snake_factory::SnakeInfo;
use crate::utils::random_move;

verus! {

/// A snake that moves toward the closest food cell to its head.
#[derive(Clone, Copy, Debug, PartialEq, Eq, Structural)]
pub struct HungrySnake;

impl HungrySnake {
    pub fn new() -> (r: Self)
        ensures
            r == HungrySnake,
    {
        HungrySnake
    }

    /// The static identity metadata shown by the info endpoint.
    pub fn info(&self) -> (r: SnakeInfo)
        ensures
            r.apiversion@ == "1"@,
            r.author@ == "efrenfuentes"@,
            r.color@ == "#5095c7"@,
            r.head@ == "do-sammy"@,
            r.tail@ == "present"@,
    {
        SnakeInfo {
            apiversion: "1".to_owned(),
            author: "efrenfuentes".to_owned(),
            color: "#5095c7".to_owned(),
            head: "do-sammy".to_owned(),
            tail: "present".to_owned(),
        }
    }

    /// Move toward the food nearest the head (earliest of the food
    /// list on ties) when that direction is safe; otherwise, and when
    /// the board has no food at all, fall back to a uniformly random
    /// safe direction, and to the fixed default `Up` when nothing is
    /// safe.
    pub fn choose_move(&self, board: &Board, snake: &Snake, safe_moves: Vec<Direction>) -> (r:
        Direction)
        requires
            snake.body@.len() >= 1,
            forall|i: int|
                0 <= i < board.food@.len() ==> distance_fits(
                    snake.body@[0],
                    #[trigger] board.food@[i],
                ),
        ensures
            safe_moves@.len() == 0 ==> r == Direction::Up,
            safe_moves@.len() > 0 ==> safe_moves@.contains(r),
            closest_to(snake.body@[0], board.food@) matches Some(t) ==> (safe_moves@.contains(
                dir_toward(snake.body@[0], t),
            ) ==> r == dir_toward(snake.body@[0], t)),
    {
        let head = snake.body[0];
        match head.closest_food(board) {
            Some(target) => {
                let direction = head.direction_to(&target);
                if dirs_contain(&safe_moves, direction) {
                    direction
                } else {
                    random_move(safe_moves)
                }
            },
            None => random_move(safe_moves),
        }
    }
}

} // verus!
