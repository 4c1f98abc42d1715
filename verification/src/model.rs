//! Core data model: coordinates, directions, and the per-turn snapshot
//! of the board and the snakes on it, together with the grid geometry
//! (adjacency, bounds, Manhattan distance) that the decision logic uses.

use vstd::prelude::*;

verus! {

/// A cell of the grid: `x` grows rightward, `y` grows upward, both
/// 0-indexed.  Passed and copied freely; equality is by value.
#[derive(Clone, Copy, Debug, PartialEq, Eq, Hash, Structural)]
pub struct Coord {
    pub x: i32,
    pub y: i32,
}

/// One of the four cardinal directions a snake can move in.
#[derive(Clone, Copy, Debug, PartialEq, Eq, Hash, Structural)]
pub enum Direction {
    Up,
    Down,
    Left,
    Right,
}

/// One snake on the board: its identity, health, and its body cells,
/// head first and tail last (`head` equals `body[0]`).
#[derive(Debug)]
pub struct Snake {
    pub id: String,
    pub name: String,
    pub health: i32,
    pub body: Vec<Coord>,
    pub head: Coord,
    pub length: i32,
    pub latency: String,
    pub shout: Option<String>,
}

/// The read-only world state for one turn: the board dimensions, the
/// food and hazard cells, and every snake currently alive (the
/// controlled one included).  Rebuilt fresh every turn, never mutated.
#[derive(Debug)]
pub struct Board {
    pub height: i32,
    pub width: i32,
    pub food: Vec<Coord>,
    pub snakes: Vec<Snake>,
    pub hazards: Vec<Coord>,
}

/// Manhattan distance between two cells.
pub open spec fn manhattan(a: Coord, b: Coord) -> int {
    vstd::math::abs(a.x - b.x) + vstd::math::abs(a.y - b.y) as int
}

/// The Manhattan distance of `a` and `b` is representable as an `i32`.
pub open spec fn distance_fits(a: Coord, b: Coord) -> bool {
    manhattan(a, b) <= i32::MAX
}

/// `c` lies on a board of the given dimensions.
pub open spec fn in_bounds(c: Coord, width: i32, height: i32) -> bool {
    0 <= c.x < width && 0 <= c.y < height
}

/// The cell reached by moving one step from `c` in direction `d`.
pub open spec fn step(c: Coord, d: Direction) -> Coord {
    match d {
        Direction::Up => Coord { x: c.x, y: (c.y + 1) as i32 },
        Direction::Down => Coord { x: c.x, y: (c.y - 1) as i32 },
        Direction::Left => Coord { x: (c.x - 1) as i32, y: c.y },
        Direction::Right => Coord { x: (c.x + 1) as i32, y: c.y },
    }
}

/// Every one-step move from `c` stays representable in `i32`.
pub open spec fn step_room(c: Coord) -> bool {
    i32::MIN < c.x < i32::MAX && i32::MIN < c.y < i32::MAX
}

/// The cardinal direction from `from` toward `to`, meaningful when the
/// two cells are adjacent along one axis; `Up` is the defensive
/// fallback for equal or diagonal pairs.
pub open spec fn dir_toward(from: Coord, to: Coord) -> Direction {
    if from.x == to.x {
        if from.y < to.y {
            Direction::Up
        } else if from.y > to.y {
            Direction::Down
        } else {
            Direction::Up
        }
    } else if from.y == to.y {
        if from.x < to.x {
            Direction::Right
        } else {
            Direction::Left
        }
    } else {
        Direction::Up
    }
}

/// `c` is free to move onto: not a hazard and not occupied by any
/// snake body on the board, nor by the controlled snake's own body.
pub open spec fn cell_free(c: Coord, board: Board, snake: Snake) -> bool {
    &&& !board.hazards@.contains(c)
    &&& forall|i: int|
        0 <= i < board.snakes@.len() ==> !(#[trigger] board.snakes@[i]).body@.contains(c)
    &&& !snake.body@.contains(c)
}

/// Moving from `c` in direction `d` lands on a board cell that is free.
pub open spec fn move_open(c: Coord, board: Board, snake: Snake, d: Direction) -> bool {
    in_bounds(step(c, d), board.width, board.height) && cell_free(step(c, d), board, snake)
}

/// A one-element sequence when `cond` holds, empty otherwise.
pub open spec fn singleton_if<A>(cond: bool, x: A) -> Seq<A> {
    if cond {
        seq![x]
    } else {
        Seq::empty()
    }
}

/// The neighbor cells one may move onto from `c`, in the fixed
/// evaluation order Right, Left, Up, Down.
pub open spec fn possible_moves_spec(c: Coord, board: Board, snake: Snake) -> Seq<Coord> {
    singleton_if(move_open(c, board, snake, Direction::Right), step(c, Direction::Right))
        + singleton_if(move_open(c, board, snake, Direction::Left), step(c, Direction::Left))
        + singleton_if(move_open(c, board, snake, Direction::Up), step(c, Direction::Up))
        + singleton_if(move_open(c, board, snake, Direction::Down), step(c, Direction::Down))
}

/// As `possible_moves_spec`, but keeping only moves that land on food.
pub open spec fn possible_moves_with_food_spec(c: Coord, board: Board, snake: Snake) -> Seq<
    Coord,
> {
    singleton_if(
        move_open(c, board, snake, Direction::Right) && board.food@.contains(
            step(c, Direction::Right),
        ),
        step(c, Direction::Right),
    )
        + singleton_if(
        move_open(c, board, snake, Direction::Left) && board.food@.contains(
            step(c, Direction::Left),
        ),
        step(c, Direction::Left),
    )
        + singleton_if(
        move_open(c, board, snake, Direction::Up) && board.food@.contains(step(c, Direction::Up)),
        step(c, Direction::Up),
    )
        + singleton_if(
        move_open(c, board, snake, Direction::Down) && board.food@.contains(
            step(c, Direction::Down),
        ),
        step(c, Direction::Down),
    )
}

/// The point of `pts` closest to `from` by Manhattan distance, ties
/// broken in favor of the earliest point of the sequence; `None` only
/// for an empty sequence.
pub open spec fn closest_to(from: Coord, pts: Seq<Coord>) -> Option<Coord>
    decreases pts.len(),
{
    if pts.len() == 0 {
        None
    } else {
        let cand = pts.last();
        match closest_to(from, pts.drop_last()) {
            None => Some(cand),
            Some(p) => if manhattan(from, cand) < manhattan(from, p) {
                Some(cand)
            } else {
                Some(p)
            },
        }
    }
}

/// The closest point is a member of the sequence and minimizes the
/// Manhattan distance over it.
pub proof fn lemma_closest_to_props(from: Coord, pts: Seq<Coord>)
    ensures
        (closest_to(from, pts) is None) <==> pts.len() == 0,
        closest_to(from, pts) matches Some(p) ==> pts.contains(p) && forall|i: int|
            0 <= i < pts.len() ==> manhattan(from, p) <= manhattan(from, #[trigger] pts[i]),
    decreases pts.len(),
{
    if pts.len() > 0 {
        lemma_closest_to_props(from, pts.drop_last());
        if let Some(p) = closest_to(from, pts) {
            assert(pts.contains(p)) by {
                if p == pts.last() {
                    assert(pts[pts.len() - 1] == p);
                } else {
                    assert(pts.drop_last().contains(p));
                    let i = choose|i: int|
                        0 <= i < pts.drop_last().len() && pts.drop_last()[i] == p;
                    assert(pts[i] == p);
                }
            }
            assert forall|i: int| 0 <= i < pts.len() implies manhattan(from, p) <= manhattan(
                from,
                #[trigger] pts[i],
            ) by {
                if i < pts.len() - 1 {
                    assert(pts.drop_last()[i] == pts[i]);
                }
            }
        }
    }
}

/// True when `v` holds the cell `c`.
pub fn coords_contain(v: &Vec<Coord>, c: Coord) -> (r: bool)
    ensures
        r == v@.contains(c),
{
    let mut i: usize = 0;
    while i < v.len()
        invariant
            0 <= i <= v@.len(),
            forall|j: int| 0 <= j < i ==> v@[j] != c,
        decreases v@.len() - i,
    {
        if v[i] == c {
            return true;
        }
        i += 1;
    }
    false
}

/// True when `v` holds the direction `d`.
pub fn dirs_contain(v: &Vec<Direction>, d: Direction) -> (r: bool)
    ensures
        r == v@.contains(d),
{
    let mut i: usize = 0;
    while i < v.len()
        invariant
            0 <= i <= v@.len(),
            forall|j: int| 0 <= j < i ==> v@[j] != d,
        decreases v@.len() - i,
    {
        if v[i] == d {
            return true;
        }
        i += 1;
    }
    false
}

impl Coord {
    pub fn new(x: i32, y: i32) -> (r: Coord)
        ensures
            r == (Coord { x, y }),
    {
        Coord { x, y }
    }

    /// Manhattan distance to `other`.
    pub fn distance(&self, other: &Coord) -> (r: i32)
        requires
            distance_fits(*self, *other),
        ensures
            r == manhattan(*self, *other),
    {
        let dx: i32 = if self.x >= other.x {
            self.x - other.x
        } else {
            other.x - self.x
        };
        let dy: i32 = if self.y >= other.y {
            self.y - other.y
        } else {
            other.y - self.y
        };
        dx + dy
    }

    /// The two cells are exactly one Manhattan step apart.
    pub fn is_adjacent(&self, other: &Coord) -> (r: bool)
        requires
            distance_fits(*self, *other),
        ensures
            r == (manhattan(*self, *other) == 1),
    {
        self.distance(other) == 1
    }

    /// The cell lies on the board.
    pub fn is_valid(&self, board: &Board) -> (r: bool)
        ensures
            r == in_bounds(*self, board.width, board.height),
    {
        self.x >= 0 && self.x < board.width && self.y >= 0 && self.y < board.height
    }

    /// The cell is not a hazard and no snake body occupies it.
    pub fn is_safe(&self, board: &Board, snake: &Snake) -> (r: bool)
        ensures
            r == cell_free(*self, *board, *snake),
    {
        if coords_contain(&board.hazards, *self) {
            return false;
        }
        let mut i: usize = 0;
        while i < board.snakes.len()
            invariant
                0 <= i <= board.snakes@.len(),
                !board.hazards@.contains(*self),
                forall|j: int|
                    0 <= j < i ==> !(#[trigger] board.snakes@[j]).body@.contains(*self),
            decreases board.snakes@.len() - i,
        {
            if coords_contain(&board.snakes[i].body, *self) {
                return false;
            }
            i += 1;
        }
        !coords_contain(&snake.body, *self)
    }

    /// The four cells one step away, in the fixed order Right, Left,
    /// Up, Down.
    pub fn neighbors(&self) -> (r: Vec<Coord>)
        requires
            step_room(*self),
        ensures
            r@ =~= seq![
                step(*self, Direction::Right),
                step(*self, Direction::Left),
                step(*self, Direction::Up),
                step(*self, Direction::Down),
            ],
    {
        let mut r: Vec<Coord> = Vec::new();
        r.push(Coord { x: self.x + 1, y: self.y });
        r.push(Coord { x: self.x - 1, y: self.y });
        r.push(Coord { x: self.x, y: self.y + 1 });
        r.push(Coord { x: self.x, y: self.y - 1 });
        r
    }

    /// The neighbor cells that are on the board and free to move onto.
    pub fn possible_moves(&self, board: &Board, snake: &Snake) -> (r: Vec<Coord>)
        requires
            step_room(*self),
        ensures
            r@ =~= possible_moves_spec(*self, *board, *snake),
    {
        let mut r: Vec<Coord> = Vec::new();
        let right = Coord { x: self.x + 1, y: self.y };
        let left = Coord { x: self.x - 1, y: self.y };
        let up = Coord { x: self.x, y: self.y + 1 };
        let down = Coord { x: self.x, y: self.y - 1 };
        if right.is_valid(board) && right.is_safe(board, snake) {
            r.push(right);
        }
        if left.is_valid(board) && left.is_safe(board, snake) {
            r.push(left);
        }
        if up.is_valid(board) && up.is_safe(board, snake) {
            r.push(up);
        }
        if down.is_valid(board) && down.is_safe(board, snake) {
            r.push(down);
        }
        r
    }

    /// The directions of `possible_moves`, in the same order.
    pub fn possible_directions(&self, board: &Board, snake: &Snake) -> (r: Vec<Direction>)
        requires
            step_room(*self),
        ensures
            r@ =~= possible_moves_spec(*self, *board, *snake).map_values(
                |m: Coord| dir_toward(*self, m),
            ),
    {
        let moves = self.possible_moves(board, snake);
        let mut r: Vec<Direction> = Vec::new();
        let mut i: usize = 0;
        while i < moves.len()
            invariant
                0 <= i <= moves@.len(),
                moves@ == possible_moves_spec(*self, *board, *snake),
                r@ =~= moves@.take(i as int).map_values(|m: Coord| dir_toward(*self, m)),
            decreases moves@.len() - i,
        {
            let d = self.direction_to(&moves[i]);
            r.push(d);
            proof {
                assert(moves@.take(i + 1int).drop_last() =~= moves@.take(i as int));
                assert(moves@.take(i + 1int).last() == moves@[i as int]);
                assert(moves@.take(i + 1int).map_values(|m: Coord| dir_toward(*self, m))
                    =~= moves@.take(i as int).map_values(|m: Coord| dir_toward(*self, m)).push(
                    dir_toward(*self, moves@[i as int]),
                ));
            }
            i += 1;
        }
        proof {
            assert(moves@.take(moves@.len() as int) =~= moves@);
        }
        r
    }

    /// The possible moves that land on a food cell.
    pub fn possible_moves_with_food(&self, board: &Board, snake: &Snake) -> (r: Vec<Coord>)
        requires
            step_room(*self),
        ensures
            r@ =~= possible_moves_with_food_spec(*self, *board, *snake),
    {
        let mut r: Vec<Coord> = Vec::new();
        let right = Coord { x: self.x + 1, y: self.y };
        let left = Coord { x: self.x - 1, y: self.y };
        let up = Coord { x: self.x, y: self.y + 1 };
        let down = Coord { x: self.x, y: self.y - 1 };
        if right.is_valid(board) && right.is_safe(board, snake) && coords_contain(
            &board.food,
            right,
        ) {
            r.push(right);
        }
        if left.is_valid(board) && left.is_safe(board, snake) && coords_contain(
            &board.food,
            left,
        ) {
            r.push(left);
        }
        if up.is_valid(board) && up.is_safe(board, snake) && coords_contain(&board.food, up) {
            r.push(up);
        }
        if down.is_valid(board) && down.is_safe(board, snake) && coords_contain(
            &board.food,
            down,
        ) {
            r.push(down);
        }
        r
    }

    /// The directions of `possible_moves_with_food`, in the same order.
    pub fn possible_directions_with_food(&self, board: &Board, snake: &Snake) -> (r: Vec<
        Direction,
    >)
        requires
            step_room(*self),
        ensures
            r@ =~= possible_moves_with_food_spec(*self, *board, *snake).map_values(
                |m: Coord| dir_toward(*self, m),
            ),
    {
        let moves = self.possible_moves_with_food(board, snake);
        let mut r: Vec<Direction> = Vec::new();
        let mut i: usize = 0;
        while i < moves.len()
            invariant
                0 <= i <= moves@.len(),
                moves@ == possible_moves_with_food_spec(*self, *board, *snake),
                r@ =~= moves@.take(i as int).map_values(|m: Coord| dir_toward(*self, m)),
            decreases moves@.len() - i,
        {
            let d = self.direction_to(&moves[i]);
            r.push(d);
            proof {
                assert(moves@.take(i + 1int).drop_last() =~= moves@.take(i as int));
                assert(moves@.take(i + 1int).last() == moves@[i as int]);
                assert(moves@.take(i + 1int).map_values(|m: Coord| dir_toward(*self, m))
                    =~= moves@.take(i as int).map_values(|m: Coord| dir_toward(*self, m)).push(
                    dir_toward(*self, moves@[i as int]),
                ));
            }
            i += 1;
        }
        proof {
            assert(moves@.take(moves@.len() as int) =~= moves@);
        }
        r
    }

    /// The food cell nearest to this cell, earliest of the list on ties.
    pub fn closest_food(&self, board: &Board) -> (r: Option<Coord>)
        requires
            forall|i: int|
                0 <= i < board.food@.len() ==> distance_fits(*self, #[trigger] board.food@[i]),
        ensures
            r == closest_to(*self, board.food@),
    {
        crate::utils::closest_point(self, &board.food)
    }

    /// The reachable neighbor cell nearest to this cell.
    pub fn closest_safe(&self, board: &Board, snake: &Snake) -> (r: Option<Coord>)
        requires
            step_room(*self),
        ensures
            r == closest_to(*self, possible_moves_spec(*self, *board, *snake)),
    {
        let moves = self.possible_moves(board, snake);
        proof {
            lemma_possible_moves_are_steps(*self, *board, *snake);
        }
        crate::utils::closest_point(self, &moves)
    }

    /// The direction from this cell toward `other`; `Up` is the
    /// defensive fallback for equal or diagonal pairs.
    pub fn direction_to(&self, other: &Coord) -> (r: Direction)
        ensures
            r == dir_toward(*self, *other),
    {
        if self.x == other.x {
            if self.y < other.y {
                Direction::Up
            } else if self.y > other.y {
                Direction::Down
            } else {
                Direction::Up
            }
        } else if self.y == other.y {
            if self.x < other.x {
                Direction::Right
            } else {
                Direction::Left
            }
        } else {
            Direction::Up
        }
    }

    /// The cell one step away in the given direction.
    pub fn move_to(&self, direction: &Direction) -> (r: Coord)
        requires
            step_room(*self),
        ensures
            r == step(*self, *direction),
    {
        match direction {
            Direction::Up => Coord { x: self.x, y: self.y + 1 },
            Direction::Down => Coord { x: self.x, y: self.y - 1 },
            Direction::Left => Coord { x: self.x - 1, y: self.y },
            Direction::Right => Coord { x: self.x + 1, y: self.y },
        }
    }
}

/// Every possible move is one Manhattan step from the origin cell.
pub proof fn lemma_possible_moves_are_steps(c: Coord, board: Board, snake: Snake)
    requires
        step_room(c),
    ensures
        forall|i: int|
            0 <= i < possible_moves_spec(c, board, snake).len() ==> manhattan(
                c,
                #[trigger] possible_moves_spec(c, board, snake)[i],
            ) == 1,
{
    assert forall|i: int| 0 <= i < possible_moves_spec(c, board, snake).len() implies manhattan(
        c,
        #[trigger] possible_moves_spec(c, board, snake)[i],
    ) == 1 by {
        let m = possible_moves_spec(c, board, snake)[i];
        assert(m == step(c, Direction::Right) || m == step(c, Direction::Left) || m == step(
            c,
            Direction::Up,
        ) || m == step(c, Direction::Down));
    }
}

impl Direction {
    /// The wire token of this direction: `"up"`, `"down"`, `"left"`
    /// or `"right"`.
    pub open spec fn token(self) -> Seq<char> {
        match self {
            Direction::Up => "up"@,
            Direction::Down => "down"@,
            Direction::Left => "left"@,
            Direction::Right => "right"@,
        }
    }

    /// The direction a wire token names, `None` for any other string.
    pub open spec fn from_token(s: Seq<char>) -> Option<Direction> {
        if s == "up"@ {
            Some(Direction::Up)
        } else if s == "down"@ {
            Some(Direction::Down)
        } else if s == "left"@ {
            Some(Direction::Left)
        } else if s == "right"@ {
            Some(Direction::Right)
        } else {
            None
        }
    }

    /// Parse a lowercase wire token; unrecognized tokens are invalid,
    /// not defaulted.
    pub fn from_str(s: &str) -> (r: Option<Direction>)
        ensures
            r == Direction::from_token(s@),
    {
        if crate::utils::str_eq(s, "up") {
            Some(Direction::Up)
        } else if crate::utils::str_eq(s, "down") {
            Some(Direction::Down)
        } else if crate::utils::str_eq(s, "left") {
            Some(Direction::Left)
        } else if crate::utils::str_eq(s, "right") {
            Some(Direction::Right)
        } else {
            None
        }
    }

    /// The opposite direction.
    pub fn opposite(&self) -> (r: Direction)
        ensures
            r == (match *self {
                Direction::Up => Direction::Down,
                Direction::Down => Direction::Up,
                Direction::Left => Direction::Right,
                Direction::Right => Direction::Left,
            }),
    {
        match self {
            Direction::Up => Direction::Down,
            Direction::Down => Direction::Up,
            Direction::Left => Direction::Right,
            Direction::Right => Direction::Left,
        }
    }

    /// The cell one step from `origin` in this direction.
    pub fn to_coord(&self, origin: &Coord) -> (r: Coord)
        requires
            step_room(*origin),
        ensures
            r == step(*origin, *self),
    {
        match self {
            Direction::Up => Coord { x: origin.x, y: origin.y + 1 },
            Direction::Down => Coord { x: origin.x, y: origin.y - 1 },
            Direction::Left => Coord { x: origin.x - 1, y: origin.y },
            Direction::Right => Coord { x: origin.x + 1, y: origin.y },
        }
    }

    /// The lowercase wire token of this direction.
    pub fn to_string(&self) -> (r: String)
        ensures
            r@ == self.token(),
    {
        match self {
            Direction::Up => "up".to_owned(),
            Direction::Down => "down".to_owned(),
            Direction::Left => "left".to_owned(),
            Direction::Right => "right".to_owned(),
        }
    }
}

} // verus!
