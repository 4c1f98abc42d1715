use battlesnake::model::{Board, Coord, Direction, Snake};
use battlesnake::moves::safe_moves;
use battlesnake::snake_factory::factory;
use battlesnake::snake_factory::hungry::HungrySnake;
use battlesnake::snake_factory::opportunist::OpportunistSnake;
use battlesnake::snake_factory::random::RandomSnake;
use battlesnake::snake_factory::Strategy;

fn make_snake(body: Vec<(i32, i32)>) -> Snake {
    let cells: Vec<Coord> = body.iter().map(|&(x, y)| Coord { x, y }).collect();
    let head = cells[0];
    let length = cells.len() as i32;
    Snake {
        id: String::from("me"),
        name: String::from("me"),
        health: 100,
        body: cells,
        head,
        length,
        latency: String::from("0"),
        shout: None,
    }
}

fn make_board(width: i32, height: i32, food: Vec<(i32, i32)>, snakes: Vec<Snake>) -> Board {
    Board {
        height,
        width,
        food: food.iter().map(|&(x, y)| Coord { x, y }).collect(),
        snakes,
        hazards: Vec::new(),
    }
}

#[test]
fn test_neck_excluded_on_open_board() {
    // 11x11 board, body [(5,5),(5,4)]: the neck is below the head, so
    // Down is excluded and Up, Left, Right all remain.
    let me = make_snake(vec![(5, 5), (5, 4)]);
    let board = make_board(11, 11, vec![], vec![make_snake(vec![(5, 5), (5, 4)])]);
    let safe = safe_moves(&board, &me);
    assert_eq!(safe, vec![Direction::Up, Direction::Left, Direction::Right]);
}

#[test]
fn test_left_edge_excludes_left() {
    // Head at (0,5) on an 11-wide board: Left leaves the board.
    let me = make_snake(vec![(0, 5)]);
    let board = make_board(11, 11, vec![], vec![]);
    let safe = safe_moves(&board, &me);
    assert!(!safe.contains(&Direction::Left));
    assert!(safe.contains(&Direction::Up));
    assert!(safe.contains(&Direction::Down));
    assert!(safe.contains(&Direction::Right));
}

#[test]
fn test_corner_excludes_two_sides() {
    let me = make_snake(vec![(0, 0)]);
    let board = make_board(11, 11, vec![], vec![]);
    let safe = safe_moves(&board, &me);
    assert_eq!(safe, vec![Direction::Up, Direction::Right]);
}

#[test]
fn test_one_by_one_board_has_no_safe_move() {
    let me = make_snake(vec![(0, 0)]);
    let board = make_board(1, 1, vec![], vec![]);
    let safe = safe_moves(&board, &me);
    assert!(safe.is_empty());
}

#[test]
fn test_opponent_body_blocks_move() {
    let me = make_snake(vec![(5, 5), (5, 4)]);
    let other = make_snake(vec![(6, 5), (6, 6)]);
    let board = make_board(11, 11, vec![], vec![other]);
    let safe = safe_moves(&board, &me);
    assert_eq!(safe, vec![Direction::Up, Direction::Left]);
}

#[test]
fn test_own_tail_blocks_move() {
    // The tail counts as occupied for this turn's evaluation.
    let me = make_snake(vec![(5, 5), (5, 4), (4, 4), (4, 5)]);
    let board = make_board(11, 11, vec![], vec![]);
    let safe = safe_moves(&board, &me);
    assert_eq!(safe, vec![Direction::Up, Direction::Right]);
}

#[test]
fn test_evaluator_is_idempotent() {
    let me = make_snake(vec![(5, 5), (5, 4)]);
    let board = make_board(11, 11, vec![(3, 3)], vec![make_snake(vec![(5, 5), (5, 4)])]);
    let first = safe_moves(&board, &me);
    let second = safe_moves(&board, &me);
    assert_eq!(first, second);
}

#[test]
fn test_every_strategy_picks_from_safe_set() {
    let me = make_snake(vec![(5, 5), (5, 4)]);
    let board = make_board(11, 11, vec![(0, 0)], vec![]);
    let safe = safe_moves(&board, &me);
    for strategy in [
        factory("random"),
        factory("opportunist"),
        factory("hungry"),
    ] {
        let chosen = strategy.choose_move(&board, &me, safe.clone());
        assert!(safe.contains(&chosen));
    }
}

#[test]
fn test_every_strategy_defaults_to_up_when_nothing_is_safe() {
    let me = make_snake(vec![(0, 0)]);
    let board = make_board(1, 1, vec![(0, 0)], vec![]);
    for strategy in [
        factory("random"),
        factory("opportunist"),
        factory("hungry"),
    ] {
        let chosen = strategy.get_move(&board, &me);
        assert_eq!(chosen, Direction::Up);
    }
}

#[test]
fn test_opportunist_grabs_reachable_food() {
    // Head at (3,3) with food at (3,4) and (4,3): the candidate subset
    // is exactly Up and Right, and the opportunist never leaves it.
    let me = make_snake(vec![(3, 3), (3, 2)]);
    let board = make_board(11, 11, vec![(3, 4), (4, 3)], vec![]);
    let head = me.body[0];
    let with_food = head.possible_directions_with_food(&board, &me);
    assert_eq!(with_food, vec![Direction::Right, Direction::Up]);
    let snake = OpportunistSnake::new();
    for _ in 0..32 {
        let safe = safe_moves(&board, &me);
        let chosen = snake.choose_move(&board, &me, safe);
        assert!(chosen == Direction::Up || chosen == Direction::Right);
    }
}

#[test]
fn test_opportunist_without_food_stays_safe() {
    let me = make_snake(vec![(3, 3), (3, 2)]);
    let board = make_board(11, 11, vec![], vec![]);
    let snake = OpportunistSnake::new();
    let safe = safe_moves(&board, &me);
    let chosen = snake.choose_move(&board, &me, safe.clone());
    assert!(safe.contains(&chosen));
}

#[test]
fn test_hungry_takes_adjacent_food() {
    // A single reachable food one step up: the hungry strategy must
    // return exactly that direction, deterministically.
    let me = make_snake(vec![(5, 5), (5, 4)]);
    let board = make_board(11, 11, vec![(5, 6)], vec![]);
    let snake = HungrySnake::new();
    for _ in 0..32 {
        let safe = safe_moves(&board, &me);
        let chosen = snake.choose_move(&board, &me, safe);
        assert_eq!(chosen, Direction::Up);
    }
}

#[test]
fn test_hungry_prefers_nearest_food() {
    let me = make_snake(vec![(5, 5), (5, 4)]);
    let board = make_board(11, 11, vec![(9, 9), (6, 5)], vec![]);
    let snake = HungrySnake::new();
    let safe = safe_moves(&board, &me);
    let chosen = snake.choose_move(&board, &me, safe);
    assert_eq!(chosen, Direction::Right);
}

#[test]
fn test_hungry_falls_back_when_food_direction_is_unsafe() {
    // The nearest food lies behind the neck: the direction toward it
    // is unsafe, so the choice falls back to a safe one.
    let me = make_snake(vec![(5, 5), (5, 4)]);
    let board = make_board(11, 11, vec![(5, 4)], vec![]);
    let snake = HungrySnake::new();
    let safe = safe_moves(&board, &me);
    let chosen = snake.choose_move(&board, &me, safe.clone());
    assert!(safe.contains(&chosen));
    assert_ne!(chosen, Direction::Down);
}

#[test]
fn test_hungry_without_food_stays_safe() {
    let me = make_snake(vec![(5, 5), (5, 4)]);
    let board = make_board(11, 11, vec![], vec![]);
    let snake = HungrySnake::new();
    let safe = safe_moves(&board, &me);
    let chosen = snake.choose_move(&board, &me, safe.clone());
    assert!(safe.contains(&chosen));
}

#[test]
fn test_random_picks_the_only_safe_move() {
    let snake = RandomSnake::new();
    let me = make_snake(vec![(5, 5)]);
    let board = make_board(11, 11, vec![], vec![]);
    let chosen = snake.choose_move(&board, &me, vec![Direction::Left]);
    assert_eq!(chosen, Direction::Left);
}

#[test]
fn test_random_defaults_to_up_on_empty_set() {
    let snake = RandomSnake::new();
    let me = make_snake(vec![(5, 5)]);
    let board = make_board(11, 11, vec![], vec![]);
    let chosen = snake.choose_move(&board, &me, vec![]);
    assert_eq!(chosen, Direction::Up);
}

#[test]
fn test_factory_resolves_names() {
    assert_eq!(factory("hungry"), Strategy::Hungry(HungrySnake::new()));
    assert_eq!(
        factory("opportunist"),
        Strategy::Opportunist(OpportunistSnake::new())
    );
    assert_eq!(factory("random"), Strategy::Random(RandomSnake::new()));
    // any unrecognized name resolves to the documented default
    assert_eq!(
        factory("clairvoyant"),
        Strategy::Opportunist(OpportunistSnake::new())
    );
}

#[test]
fn test_info_metadata() {
    let info = factory("opportunist").info();
    assert_eq!(info.apiversion, "1");
    assert_eq!(info.author, "efrenfuentes");
    assert_eq!(info.color, "#c47ee0");
    assert_eq!(info.head, "silly");
    assert_eq!(info.tail, "mlh-gene");
    let info = factory("random").info();
    assert_eq!(info.color, "#5095c7");
    assert_eq!(info.head, "do-sammy");
    assert_eq!(info.tail, "present");
}

#[test]
fn test_get_move_runs_the_whole_pipeline() {
    let me = make_snake(vec![(5, 5), (5, 4)]);
    let board = make_board(11, 11, vec![(5, 6)], vec![make_snake(vec![(5, 5), (5, 4)])]);
    let chosen = factory("hungry").get_move(&board, &me);
    assert_eq!(chosen, Direction::Up);
}

#[test]
fn test_open_board_at_the_largest_size() {
    let me = make_snake(vec![(0, 0)]);
    let board = make_board(i32::MAX, i32::MAX, vec![], vec![]);
    let safe = safe_moves(&board, &me);
    assert_eq!(safe, vec![Direction::Up, Direction::Right]);
}
