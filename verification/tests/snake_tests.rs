use rust_snake::board::{snake_clamp, Board, Cell};
use rust_snake::game::{Direction, SnakeGame, TickResult};

fn cell(x: i32, y: i32) -> Cell {
    Cell { x, y }
}

#[test]
fn clamp_keeps_in_range_values() {
    assert_eq!(snake_clamp(0, 0, 20), 0);
    assert_eq!(snake_clamp(5, 0, 20), 5);
    assert_eq!(snake_clamp(19, 0, 20), 19);
}

#[test]
fn clamp_wraps_below_and_above() {
    assert_eq!(snake_clamp(-1, 0, 20), 19);
    assert_eq!(snake_clamp(20, 0, 20), 0);
    assert_eq!(snake_clamp(25, 0, 20), 5);
    assert_eq!(snake_clamp(-25, 0, 20), 15);
}

#[test]
fn clamp_is_idempotent() {
    for c in [-45, -7, -1, 0, 13, 19, 20, 33, 61] {
        let once = snake_clamp(c, 0, 20);
        assert!(0 <= once && once < 20);
        assert_eq!(snake_clamp(once, 0, 20), once);
    }
}

#[test]
fn new_game_initial_state() {
    let g = SnakeGame::new(20);
    assert_eq!(g.board.size, 20);
    assert_eq!(g.body, vec![cell(0, 0), cell(1, 0), cell(2, 0), cell(3, 0)]);
    assert_eq!(g.growth_pending, 0);
    assert_eq!(g.heading, Direction::Right);
    assert!(g.pending_directions.is_empty());
    assert_eq!(g.item_pos, cell(-1, -1));
    assert_eq!(g.score, 0);
    assert_eq!(g.lives, 3);
}

#[test]
fn queue_never_exceeds_four() {
    let mut g = SnakeGame::new(20);
    for _ in 0..6 {
        g.queue_direction(Direction::Up);
    }
    assert_eq!(g.pending_directions.len(), 4);
}

#[test]
fn queue_ignores_stopped() {
    let mut g = SnakeGame::new(20);
    g.queue_direction(Direction::Stopped);
    assert!(g.pending_directions.is_empty());
    g.queue_direction(Direction::Down);
    assert_eq!(g.pending_directions, vec![Direction::Down]);
}

#[test]
fn queue_preserves_order() {
    let mut g = SnakeGame::new(20);
    g.queue_direction(Direction::Up);
    g.queue_direction(Direction::Right);
    g.queue_direction(Direction::Down);
    assert_eq!(
        g.pending_directions,
        vec![Direction::Up, Direction::Right, Direction::Down]
    );
}

#[test]
fn reversal_request_is_rejected() {
    let mut g = SnakeGame::new(20);
    g.queue_direction(Direction::Left);
    let r = g.advance_tick();
    assert_eq!(r, TickResult::Continue);
    assert_eq!(g.heading, Direction::Right);
    assert!(g.pending_directions.is_empty());
}

#[test]
fn straight_move_shifts_body() {
    let mut g = SnakeGame::new(20);
    let r = g.advance_tick();
    assert_eq!(r, TickResult::Continue);
    assert_eq!(g.body, vec![cell(1, 0), cell(2, 0), cell(3, 0), cell(4, 0)]);
    assert_eq!(g.score, 0);
}

#[test]
fn head_wraps_around_the_edge() {
    let mut g = SnakeGame {
        board: Board { size: 20 },
        body: vec![cell(18, 0), cell(19, 0)],
        growth_pending: 0,
        heading: Direction::Right,
        pending_directions: Vec::new(),
        item_pos: cell(-1, -1),
        score: 0,
        lives: 3,
    };
    let r = g.advance_tick();
    assert_eq!(r, TickResult::Continue);
    assert_eq!(g.body, vec![cell(19, 0), cell(0, 0)]);
}

#[test]
fn eating_scores_and_grows() {
    let mut g = SnakeGame {
        board: Board { size: 20 },
        body: vec![cell(0, 0), cell(1, 0)],
        growth_pending: 0,
        heading: Direction::Right,
        pending_directions: Vec::new(),
        item_pos: cell(2, 0),
        score: 0,
        lives: 3,
    };
    let r = g.advance_tick();
    assert_eq!(r, TickResult::AteItem);
    assert_eq!(g.score, 1);
    assert_eq!(g.growth_pending, 1);
    assert_eq!(g.body, vec![cell(1, 0), cell(2, 0)]);
    // The fresh item is on the board and off the body.
    assert!(0 <= g.item_pos.x && g.item_pos.x < 20);
    assert!(0 <= g.item_pos.y && g.item_pos.y < 20);
    assert!(!g.body.contains(&g.item_pos));
    // The pending growth keeps the tail on the next tick: net length +1.
    let r2 = g.advance_tick();
    assert!(r2 == TickResult::Continue || r2 == TickResult::AteItem);
    assert_eq!(g.body.len(), 3);
    assert_eq!(g.growth_pending, if r2 == TickResult::AteItem { 1 } else { 0 });
}

#[test]
fn eating_with_growth_pending_lengthens_body_that_tick() {
    let mut g = SnakeGame {
        board: Board { size: 20 },
        body: vec![cell(0, 5), cell(1, 5)],
        growth_pending: 2,
        heading: Direction::Right,
        pending_directions: Vec::new(),
        item_pos: cell(2, 5),
        score: 7,
        lives: 3,
    };
    let r = g.advance_tick();
    assert_eq!(r, TickResult::AteItem);
    assert_eq!(g.score, 8);
    assert_eq!(g.body, vec![cell(0, 5), cell(1, 5), cell(2, 5)]);
    assert_eq!(g.growth_pending, 2);
}

#[test]
fn tail_chase_is_legal() {
    // A 2x2 loop: the head moves onto the cell the tail vacates this tick.
    let mut g = SnakeGame {
        board: Board { size: 20 },
        body: vec![cell(0, 0), cell(1, 0), cell(1, 1), cell(0, 1)],
        growth_pending: 0,
        heading: Direction::Up,
        pending_directions: Vec::new(),
        item_pos: cell(-1, -1),
        score: 0,
        lives: 3,
    };
    let r = g.advance_tick();
    assert_eq!(r, TickResult::Continue);
    assert_eq!(g.body, vec![cell(1, 0), cell(1, 1), cell(0, 1), cell(0, 0)]);
}

#[test]
fn moving_into_own_body_is_game_over() {
    // The head at (0,0) moves right onto (1,0), a still-occupied segment.
    let mut g = SnakeGame {
        board: Board { size: 20 },
        body: vec![cell(2, 0), cell(1, 0), cell(1, 1), cell(0, 1), cell(0, 0)],
        growth_pending: 0,
        heading: Direction::Right,
        pending_directions: Vec::new(),
        item_pos: cell(-1, -1),
        score: 4,
        lives: 3,
    };
    let r = g.advance_tick();
    assert_eq!(r, TickResult::GameOver);
    // The colliding head was not added; only the tail adjustment happened.
    assert_eq!(g.body, vec![cell(1, 0), cell(1, 1), cell(0, 1), cell(0, 0)]);
    assert_eq!(g.score, 4);
}

#[test]
fn spawned_item_avoids_the_body() {
    let mut g = SnakeGame::new(20);
    for _ in 0..50 {
        g.spawn_item();
        assert!(0 <= g.item_pos.x && g.item_pos.x < 20);
        assert!(0 <= g.item_pos.y && g.item_pos.y < 20);
        assert!(!g.body.contains(&g.item_pos));
    }
}

#[test]
fn spawn_on_a_nearly_full_board_finds_the_free_cell() {
    // A 2x2 board whose body covers all cells but (1,1).
    let mut g = SnakeGame {
        board: Board { size: 2 },
        body: vec![cell(0, 0), cell(0, 1), cell(1, 0)],
        growth_pending: 0,
        heading: Direction::Right,
        pending_directions: Vec::new(),
        item_pos: cell(-1, -1),
        score: 0,
        lives: 3,
    };
    g.spawn_item();
    assert_eq!(g.item_pos, cell(1, 1));
}

#[test]
fn stopped_heading_leaves_body_in_place() {
    let mut g = SnakeGame {
        board: Board { size: 20 },
        body: vec![cell(4, 4)],
        growth_pending: 0,
        heading: Direction::Stopped,
        pending_directions: Vec::new(),
        item_pos: cell(-1, -1),
        score: 0,
        lives: 3,
    };
    let r = g.advance_tick();
    assert_eq!(r, TickResult::Continue);
    assert_eq!(g.body, vec![cell(4, 4)]);
}
