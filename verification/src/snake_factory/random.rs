//! The random strategy: a uniformly random safe move.

use vstd::prelude::*;

use crate::model::{Board, Direction, Snake};
use crate::snake_factory::SnakeInfo;
use crate::utils::random_move;

verus! {

/// A snake that moves uniformly at random among the safe directions.
#[derive(Clone, Copy, Debug, PartialEq, Eq, Structural)]
pub struct RandomSnake;

impl RandomSnake {
    pub fn new() -> (r: Self)
        ensures
            r == RandomSnake,
    {
        RandomSnake
    }

    /// The static identity metadata shown by the info endpoint.
    pub fn info(&self) -> (r: SnakeInfo)
        ensures
            r.apiversion@ == "1"@,
            r.author@ == "efrenfuentes"@,
            r.color@ == "#5095c7"@,
            r.head@ == "do-sammy"@,
            r.tail@ == "present"@,
    {
        SnakeInfo {
            apiversion: "1".to_owned(),
            author: "efrenfuentes".to_owned(),
            color: "#5095c7".to_owned(),
            head: "do-sammy".to_owned(),
            tail: "present".to_owned(),
        }
    }

    /// Choose uniformly among the safe directions; the fixed default
    /// `Up` when none is safe.
    pub fn choose_move(&self, _board: &Board, _snake: &Snake, safe_moves: Vec<Direction>) -> (r:
        Direction)
        ensures
            safe_moves@.len() > 0 ==> safe_moves@.contains(r),
            safe_moves@.len() == 0 ==> r == Direction::Up,
    {
        random_move(safe_moves)
    }
}

} // verus!
