//! The move-legality evaluator: given the board and the controlled
//! snake, compute the subset of the four directions that do not cause
//! immediate death this turn (backward move onto the neck, leaving the
//! board, or colliding with any snake body).  Hazards are deliberately
//! not a legality condition: they are survivable, and exposed to
//! strategies only as an avoidance signal.

use vstd::prelude::*;

use crate::model::{coords_contain, in_bounds, singleton_if, step, step_room, Board, Coord,
    Direction, Snake};

verus! {

/// One safety flag per direction; a direction starts safe and is
/// cleared by the elimination rules.
pub struct MoveFlags {
    pub up: bool,
    pub down: bool,
    pub left: bool,
    pub right: bool,
}

/// The neck rule clears direction `d`: moving from `head` in `d` would
/// move back toward the cell the neck occupies.
pub open spec fn neck_blocks(neck: Coord, head: Coord, d: Direction) -> bool {
    match d {
        Direction::Left => neck.x < head.x,
        Direction::Right => neck.x > head.x,
        Direction::Down => neck.x == head.x && neck.y < head.y,
        Direction::Up => neck.x == head.x && neck.y > head.y,
    }
}

/// Direction `d` survives every elimination rule: no backward move
/// onto the neck, the target cell is on the board, and no snake body
/// (the controlled snake's own included) occupies it.
pub open spec fn dir_safe(board: Board, snake: Snake, d: Direction) -> bool {
    let head = snake.body@[0];
    let target = step(head, d);
    &&& !(snake.body@.len() >= 2 && neck_blocks(snake.body@[1], head, d))
    &&& in_bounds(target, board.width, board.height)
    &&& !snake.body@.contains(target)
    &&& forall|i: int|
        0 <= i < board.snakes@.len() ==> !(#[trigger] board.snakes@[i]).body@.contains(target)
}

/// The safe directions, in the fixed order Up, Down, Left, Right.
pub open spec fn safe_directions_spec(board: Board, snake: Snake) -> Seq<Direction> {
    singleton_if(dir_safe(board, snake, Direction::Up), Direction::Up) + singleton_if(
        dir_safe(board, snake, Direction::Down),
        Direction::Down,
    ) + singleton_if(dir_safe(board, snake, Direction::Left), Direction::Left) + singleton_if(
        dir_safe(board, snake, Direction::Right),
        Direction::Right,
    )
}

/// A direction stands in the safe set exactly when it survives every
/// elimination rule.
pub proof fn lemma_safe_directions_iff(board: Board, snake: Snake, d: Direction)
    ensures
        safe_directions_spec(board, snake).contains(d) <==> dir_safe(board, snake, d),
{
    let s = safe_directions_spec(board, snake);
    if s.contains(d) {
        let i = choose|i: int| 0 <= i < s.len() && s[i] == d;
        assert(dir_safe(board, snake, d)) by {
            assert(s[i] == d);
        }
    }
    if dir_safe(board, snake, d) {
        match d {
            Direction::Up => {
                assert(s[0] == Direction::Up);
            },
            Direction::Down => {
                let i = singleton_if(dir_safe(board, snake, Direction::Up), Direction::Up).len();
                assert(s[i as int] == Direction::Down);
            },
            Direction::Left => {
                let i = singleton_if(dir_safe(board, snake, Direction::Up), Direction::Up).len()
                    + singleton_if(dir_safe(board, snake, Direction::Down), Direction::Down).len();
                assert(s[i as int] == Direction::Left);
            },
            Direction::Right => {
                let i = singleton_if(dir_safe(board, snake, Direction::Up), Direction::Up).len()
                    + singleton_if(dir_safe(board, snake, Direction::Down), Direction::Down).len()
                    + singleton_if(dir_safe(board, snake, Direction::Left), Direction::Left).len();
                assert(s[i as int] == Direction::Right);
            },
        }
    }
}

/// Law: every direction in the evaluator's safe set, applied to the
/// head, yields a cell that is on the board and unoccupied by any
/// snake body, the controlled snake's own included.
pub proof fn lemma_safe_direction_survives(board: Board, snake: Snake, d: Direction)
    requires
        safe_directions_spec(board, snake).contains(d),
    ensures
        in_bounds(step(snake.body@[0], d), board.width, board.height),
        !snake.body@.contains(step(snake.body@[0], d)),
        forall|i: int|
            0 <= i < board.snakes@.len() ==> !(#[trigger] board.snakes@[i]).body@.contains(
                step(snake.body@[0], d),
            ),
{
    lemma_safe_directions_iff(board, snake, d);
}

/// Law: when the snake's body has at least two cells, the direction
/// that points at its neck is never in the safe set.
pub proof fn lemma_neck_never_safe(board: Board, snake: Snake, d: Direction)
    requires
        snake.body@.len() >= 2,
        step(snake.body@[0], d) == snake.body@[1],
    ensures
        !safe_directions_spec(board, snake).contains(d),
{
    assert(snake.body@.contains(step(snake.body@[0], d))) by {
        assert(snake.body@[1] == step(snake.body@[0], d));
    }
    lemma_safe_directions_iff(board, snake, d);
}

/// Law: the evaluator is a pure function of the board and snake
/// values; two safe sets computed from the same inputs are identical.
pub proof fn lemma_evaluator_deterministic(
    board: Board,
    snake: Snake,
    r1: Seq<Direction>,
    r2: Seq<Direction>,
)
    requires
        r1 == safe_directions_spec(board, snake),
        r2 == safe_directions_spec(board, snake),
    ensures
        r1 == r2,
{
}

/// All four directions start safe.
pub fn init_safe_moves() -> (f: MoveFlags)
    ensures
        f.up && f.down && f.left && f.right,
{
    MoveFlags { up: true, down: true, left: true, right: true }
}

/// Clear the direction that would move the head backward onto the
/// neck; with a body of one cell no neck constraint applies and the
/// caller skips this rule.
pub fn check_neck_and_head(neck: &Coord, head: &Coord, is_move_safe: &mut MoveFlags)
    ensures
        final(is_move_safe).left == (old(is_move_safe).left && !neck_blocks(
            *neck,
            *head,
            Direction::Left,
        )),
        final(is_move_safe).right == (old(is_move_safe).right && !neck_blocks(
            *neck,
            *head,
            Direction::Right,
        )),
        final(is_move_safe).down == (old(is_move_safe).down && !neck_blocks(
            *neck,
            *head,
            Direction::Down,
        )),
        final(is_move_safe).up == (old(is_move_safe).up && !neck_blocks(
            *neck,
            *head,
            Direction::Up,
        )),
{
    if neck.x < head.x {
        is_move_safe.left = false;
    } else if neck.x > head.x {
        is_move_safe.right = false;
    } else if neck.y < head.y {
        is_move_safe.down = false;
    } else if neck.y > head.y {
        is_move_safe.up = false;
    }
}

/// Clear every direction whose target cell lies off the board.
pub fn check_board_bounds(width: &i32, height: &i32, head: &Coord, is_move_safe: &mut MoveFlags)
    requires
        step_room(*head),
    ensures
        final(is_move_safe).up == (old(is_move_safe).up && in_bounds(
            step(*head, Direction::Up),
            *width,
            *height,
        )),
        final(is_move_safe).down == (old(is_move_safe).down && in_bounds(
            step(*head, Direction::Down),
            *width,
            *height,
        )),
        final(is_move_safe).left == (old(is_move_safe).left && in_bounds(
            step(*head, Direction::Left),
            *width,
            *height,
        )),
        final(is_move_safe).right == (old(is_move_safe).right && in_bounds(
            step(*head, Direction::Right),
            *width,
            *height,
        )),
{
    let x = head.x;
    let y = head.y;
    if !(x >= 0 && x < *width && y + 1 >= 0 && y + 1 < *height) {
        is_move_safe.up = false;
    }
    if !(x >= 0 && x < *width && y - 1 >= 0 && y - 1 < *height) {
        is_move_safe.down = false;
    }
    if !(x - 1 >= 0 && x - 1 < *width && y >= 0 && y < *height) {
        is_move_safe.left = false;
    }
    if !(x + 1 >= 0 && x + 1 < *width && y >= 0 && y < *height) {
        is_move_safe.right = false;
    }
}

/// Clear every direction whose target cell one of the given body
/// cells occupies.
pub fn check_snake_body(body: &Vec<Coord>, head: &Coord, is_move_safe: &mut MoveFlags)
    requires
        step_room(*head),
    ensures
        final(is_move_safe).up == (old(is_move_safe).up && !body@.contains(
            step(*head, Direction::Up),
        )),
        final(is_move_safe).down == (old(is_move_safe).down && !body@.contains(
            step(*head, Direction::Down),
        )),
        final(is_move_safe).left == (old(is_move_safe).left && !body@.contains(
            step(*head, Direction::Left),
        )),
        final(is_move_safe).right == (old(is_move_safe).right && !body@.contains(
            step(*head, Direction::Right),
        )),
{
    let up_cell = Coord { x: head.x, y: head.y + 1 };
    let down_cell = Coord { x: head.x, y: head.y - 1 };
    let left_cell = Coord { x: head.x - 1, y: head.y };
    let right_cell = Coord { x: head.x + 1, y: head.y };
    if coords_contain(body, up_cell) {
        is_move_safe.up = false;
    }
    if coords_contain(body, down_cell) {
        is_move_safe.down = false;
    }
    if coords_contain(body, left_cell) {
        is_move_safe.left = false;
    }
    if coords_contain(body, right_cell) {
        is_move_safe.right = false;
    }
}

/// Clear every direction whose target cell any of the given snakes'
/// bodies occupies.
pub fn check_snakes_bodies(snakes: &Vec<Snake>, head: &Coord, is_move_safe: &mut MoveFlags)
    requires
        step_room(*head),
    ensures
        final(is_move_safe).up == (old(is_move_safe).up && forall|i: int|
            0 <= i < snakes@.len() ==> !(#[trigger] snakes@[i]).body@.contains(
                step(*head, Direction::Up),
            )),
        final(is_move_safe).down == (old(is_move_safe).down && forall|i: int|
            0 <= i < snakes@.len() ==> !(#[trigger] snakes@[i]).body@.contains(
                step(*head, Direction::Down),
            )),
        final(is_move_safe).left == (old(is_move_safe).left && forall|i: int|
            0 <= i < snakes@.len() ==> !(#[trigger] snakes@[i]).body@.contains(
                step(*head, Direction::Left),
            )),
        final(is_move_safe).right == (old(is_move_safe).right && forall|i: int|
            0 <= i < snakes@.len() ==> !(#[trigger] snakes@[i]).body@.contains(
                step(*head, Direction::Right),
            )),
{
    let mut i: usize = 0;
    while i < snakes.len()
        invariant
            0 <= i <= snakes@.len(),
            step_room(*head),
            is_move_safe.up == (old(is_move_safe).up && forall|j: int|
                0 <= j < i ==> !(#[trigger] snakes@[j]).body@.contains(step(*head, Direction::Up))),
            is_move_safe.down == (old(is_move_safe).down && forall|j: int|
                0 <= j < i ==> !(#[trigger] snakes@[j]).body@.contains(
                    step(*head, Direction::Down),
                )),
            is_move_safe.left == (old(is_move_safe).left && forall|j: int|
                0 <= j < i ==> !(#[trigger] snakes@[j]).body@.contains(
                    step(*head, Direction::Left),
                )),
            is_move_safe.right == (old(is_move_safe).right && forall|j: int|
                0 <= j < i ==> !(#[trigger] snakes@[j]).body@.contains(
                    step(*head, Direction::Right),
                )),
        decreases snakes@.len() - i,
    {
        check_snake_body(&snakes[i].body, head, is_move_safe);
        i += 1;
    }
}

/// The legality evaluator: the subset of the four directions that do
/// not result in immediate death this turn, as a pure function of the
/// snapshot.  An empty result means death is unavoidable; the
/// strategies, not the evaluator, supply the terminal fallback.
pub fn safe_moves(board: &Board, snake: &Snake) -> (r: Vec<Direction>)
    requires
        snake.body@.len() >= 1,
        in_bounds(snake.body@[0], board.width, board.height),
    ensures
        r@ == safe_directions_spec(*board, *snake),
{
    let mut is_move_safe = init_safe_moves();
    let head = snake.body[0];

    // Prevent the snake from moving backward onto its own neck; on the
    // very first turn the body may be a single cell, and no neck
    // constraint applies.
    if snake.body.len() >= 2 {
        check_neck_and_head(&snake.body[1], &head, &mut is_move_safe);
    }

    // Prevent the snake from moving out of bounds.
    check_board_bounds(&board.width, &board.height, &head, &mut is_move_safe);

    // Prevent the snake from colliding with itself.
    check_snake_body(&snake.body, &head, &mut is_move_safe);

    // Prevent the snake from colliding with any snake on the board.
    check_snakes_bodies(&board.snakes, &head, &mut is_move_safe);

    let mut r: Vec<Direction> = Vec::new();
    if is_move_safe.up {
        r.push(Direction::Up);
    }
    if is_move_safe.down {
        r.push(Direction::Down);
    }
    if is_move_safe.left {
        r.push(Direction::Left);
    }
    if is_move_safe.right {
        r.push(Direction::Right);
    }
    proof {
        assert(r@ =~= safe_directions_spec(*board, *snake));
    }
    r
}

} // verus!
