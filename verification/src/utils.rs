//! Small helpers: free-function distance and closest-point queries,
//! string comparison, and the one place the engine draws randomness.

use vstd::prelude::*;
use vstd::string::StrSliceExecFns;

use crate::model::{closest_to, distance_fits, lemma_closest_to_props, manhattan, Coord,
    Direction};

verus! {

/// Manhattan distance between two cells.
pub fn distance(coord1: &Coord, coord2: &Coord) -> (r: i32)
    requires
        distance_fits(*coord1, *coord2),
    ensures
        r == manhattan(*coord1, *coord2),
{
    coord1.distance(coord2)
}

/// The point of `points` closest to `coord`, earliest of the list on
/// ties; `None` only when `points` is empty.
pub fn closest_point(coord: &Coord, points: &Vec<Coord>) -> (r: Option<Coord>)
    requires
        forall|i: int| 0 <= i < points@.len() ==> distance_fits(*coord, #[trigger] points@[i]),
    ensures
        r == closest_to(*coord, points@),
{
    let mut best: Option<Coord> = None;
    let mut i: usize = 0;
    while i < points.len()
        invariant
            0 <= i <= points@.len(),
            forall|j: int| 0 <= j < points@.len() ==> distance_fits(*coord, #[trigger] points@[j]),
            best == closest_to(*coord, points@.take(i as int)),
        decreases points@.len() - i,
    {
        let p = points[i];
        proof {
            lemma_closest_to_props(*coord, points@.take(i as int));
            if let Some(b) = best {
                let t = points@.take(i as int);
                assert(t.contains(b));
                let k = choose|k: int| 0 <= k < t.len() && t[k] == b;
                assert(points@[k] == b);
            }
        }
        let new_best = match best {
            None => Some(p),
            Some(b) => {
                if coord.distance(&p) < coord.distance(&b) {
                    Some(p)
                } else {
                    Some(b)
                }
            },
        };
        proof {
            assert(points@.take(i + 1int).drop_last() =~= points@.take(i as int));
            assert(points@.take(i + 1int).last() == points@[i as int]);
        }
        best = new_best;
        i += 1;
    }
    proof {
        assert(points@.take(points@.len() as int) =~= points@);
    }
    best
}

/// Character-for-character string equality.
pub fn str_eq(a: &str, b: &str) -> (r: bool)
    ensures
        r == (a@ == b@),
{
    let n = a.unicode_len();
    if n != b.unicode_len() {
        return false;
    }
    let mut i: usize = 0;
    while i < n
        invariant
            0 <= i <= n,
            n == a@.len(),
            n == b@.len(),
            forall|j: int| 0 <= j < i ==> a@[j] == b@[j],
        decreases n - i,
    {
        if a.get_char(i) != b.get_char(i) {
            return false;
        }
        i += 1;
    }
    proof {
        assert(a@ =~= b@);
    }
    true
}

/// Relies on rand's `SliceRandom::choose` (with `thread_rng`): it
/// returns a reference to one element of the slice, or `None` exactly
/// when the slice is empty.
#[verifier::external_body]
fn choose_direction(moves: &Vec<Direction>) -> (r: Option<Direction>)
    ensures
        (r is None) <==> moves@.len() == 0,
        r matches Some(d) ==> moves@.contains(d),
{
    rand::seq::SliceRandom::choose(moves.as_slice(), &mut rand::thread_rng()).copied()
}

/// One of the given directions, drawn at random; the fixed default
/// `Up` when none is given.
pub fn random_move(possible_moves: Vec<Direction>) -> (r: Direction)
    ensures
        possible_moves@.len() > 0 ==> possible_moves@.contains(r),
        possible_moves@.len() == 0 ==> r == Direction::Up,
{
    match choose_direction(&possible_moves) {
        Some(d) => d,
        None => Direction::Up,
    }
}

} // verus!
