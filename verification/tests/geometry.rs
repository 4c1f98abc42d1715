use battlesnake::model::{Board, Coord, Snake};
use battlesnake::utils::{closest_point, distance};

fn empty_board(width: i32, height: i32) -> Board {
    Board {
        height,
        width,
        food: Vec::new(),
        snakes: Vec::new(),
        hazards: Vec::new(),
    }
}

fn bare_snake(body: Vec<Coord>) -> Snake {
    let head = body[0];
    let length = body.len() as i32;
    Snake {
        id: String::from("s"),
        name: String::from("s"),
        health: 100,
        body,
        head,
        length,
        latency: String::from("0"),
        shout: None,
    }
}

#[test]
fn test_distance_is_manhattan() {
    let a = Coord::new(1, 2);
    let b = Coord::new(4, 0);
    assert_eq!(distance(&a, &b), 5);
    assert_eq!(distance(&b, &a), 5);
    assert_eq!(distance(&a, &a), 0);
    assert_eq!(a.distance(&b), 5);
}

#[test]
fn test_is_adjacent() {
    let a = Coord::new(3, 3);
    assert!(a.is_adjacent(&Coord::new(3, 4)));
    assert!(a.is_adjacent(&Coord::new(2, 3)));
    assert!(!a.is_adjacent(&Coord::new(4, 4)));
    assert!(!a.is_adjacent(&a));
}

#[test]
fn test_is_valid_bounds() {
    let board = empty_board(11, 11);
    assert!(Coord::new(0, 0).is_valid(&board));
    assert!(Coord::new(10, 10).is_valid(&board));
    assert!(!Coord::new(-1, 5).is_valid(&board));
    assert!(!Coord::new(11, 5).is_valid(&board));
    assert!(!Coord::new(5, 11).is_valid(&board));
}

#[test]
fn test_is_safe_checks_hazards_and_bodies() {
    let me = bare_snake(vec![Coord::new(2, 2), Coord::new(2, 1)]);
    let mut board = empty_board(11, 11);
    board.hazards.push(Coord::new(0, 0));
    board.snakes.push(bare_snake(vec![Coord::new(5, 5)]));
    assert!(!Coord::new(0, 0).is_safe(&board, &me));
    assert!(!Coord::new(5, 5).is_safe(&board, &me));
    assert!(!Coord::new(2, 1).is_safe(&board, &me));
    assert!(Coord::new(7, 7).is_safe(&board, &me));
}

#[test]
fn test_neighbors_order() {
    let c = Coord::new(5, 5);
    assert_eq!(
        c.neighbors(),
        vec![
            Coord::new(6, 5),
            Coord::new(4, 5),
            Coord::new(5, 6),
            Coord::new(5, 4),
        ]
    );
}

#[test]
fn test_possible_moves_filters_bounds_and_bodies() {
    let me = bare_snake(vec![Coord::new(0, 0), Coord::new(1, 0)]);
    let board = empty_board(11, 11);
    let moves = Coord::new(0, 0).possible_moves(&board, &me);
    assert_eq!(moves, vec![Coord::new(0, 1)]);
}

#[test]
fn test_closest_point_picks_minimum() {
    let origin = Coord::new(0, 0);
    let points = vec![Coord::new(2, 0), Coord::new(0, 1), Coord::new(3, 3)];
    assert_eq!(closest_point(&origin, &points), Some(Coord::new(0, 1)));
    assert_eq!(closest_point(&origin, &Vec::new()), None);
}

#[test]
fn test_closest_point_breaks_ties_by_first_match() {
    let origin = Coord::new(0, 0);
    let points = vec![Coord::new(1, 0), Coord::new(0, 1)];
    assert_eq!(closest_point(&origin, &points), Some(Coord::new(1, 0)));
}

#[test]
fn test_closest_food_earliest_on_tie() {
    let mut board = empty_board(11, 11);
    board.food.push(Coord::new(5, 7));
    board.food.push(Coord::new(7, 5));
    assert_eq!(
        Coord::new(5, 5).closest_food(&board),
        Some(Coord::new(5, 7))
    );
}

#[test]
fn test_closest_safe_picks_a_reachable_neighbor() {
    let me = bare_snake(vec![Coord::new(0, 0), Coord::new(0, 1)]);
    let board = empty_board(11, 11);
    assert_eq!(
        Coord::new(0, 0).closest_safe(&board, &me),
        Some(Coord::new(1, 0))
    );
}

#[test]
fn test_distance_at_the_i32_limit() {
    let a = Coord::new(0, 0);
    let b = Coord::new(i32::MAX, 0);
    assert_eq!(distance(&a, &b), i32::MAX);
}
