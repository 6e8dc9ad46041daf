use snake::config::{Config, Growth};
use snake::food::Food;
use snake::geometry::{Direction, Location};
use snake::snake::{all_distinct, Snake};

fn cell(x: u16, y: u16) -> Location {
    Location { x, y }
}

fn grid(cols: u16, rows: u16) -> Config {
    Config::new(cols, rows, Growth::EveryNthTick(10), 250, 10).unwrap()
}

#[test]
fn new_snake_has_three_cells_heading_right() {
    let s = Snake::new();
    assert_eq!(s.segments(), vec![cell(3, 1), cell(2, 1), cell(1, 1)]);
    assert_eq!(s.direction(), Direction::Right);
    assert_eq!(s.len(), 3);
    assert_eq!(s.head(), cell(3, 1));
}

#[test]
fn tick_one_pops_the_tail() {
    let mut s = Snake::new();
    assert!(s.update_snake(1, &grid(20, 20)));
    assert_eq!(s.segments(), vec![cell(4, 1), cell(3, 1), cell(2, 1)]);
}

#[test]
fn tick_ten_keeps_the_tail() {
    let mut s = Snake::new();
    assert!(s.update_snake(10, &grid(20, 20)));
    assert_eq!(s.segments(), vec![cell(4, 1), cell(3, 1), cell(2, 1), cell(1, 1)]);
    assert_eq!(s.len(), 4);
}

#[test]
fn tick_zero_is_a_growth_tick() {
    let mut s = Snake::new();
    assert!(s.update_snake(0, &grid(20, 20)));
    assert_eq!(s.len(), 4);
}

#[test]
fn update_snake_never_grows_when_growth_is_on_food() {
    let cfg = Config::new(20, 20, Growth::OnFood, 250, 10).unwrap();
    let mut s = Snake::new();
    assert!(s.update_snake(10, &cfg));
    assert_eq!(s.segments(), vec![cell(4, 1), cell(3, 1), cell(2, 1)]);
}

#[test]
fn step_left_from_column_one_is_fatal_and_moves_nothing() {
    let cells = vec![cell(1, 5), cell(2, 5), cell(3, 5)];
    let mut s = Snake::from_segments(&cells, Direction::Left).unwrap();
    assert!(!s.update_snake(1, &grid(20, 20)));
    assert_eq!(s.segments(), cells);
    assert_eq!(s.direction(), Direction::Left);
}

#[test]
fn each_wall_is_fatal() {
    let cfg = grid(6, 5);
    let mut up = Snake::from_segments(&vec![cell(3, 1), cell(3, 2)], Direction::Up).unwrap();
    assert!(!up.step(false, &cfg));
    let mut down = Snake::from_segments(&vec![cell(3, 4), cell(3, 3)], Direction::Down).unwrap();
    assert!(!down.step(false, &cfg));
    let mut left = Snake::from_segments(&vec![cell(1, 2), cell(2, 2)], Direction::Left).unwrap();
    assert!(!left.step(false, &cfg));
    let mut right = Snake::from_segments(&vec![cell(5, 2), cell(4, 2)], Direction::Right).unwrap();
    assert!(!right.step(false, &cfg));
    assert_eq!(right.segments(), vec![cell(5, 2), cell(4, 2)]);
}

#[test]
fn last_interior_cells_can_be_entered() {
    let cfg = grid(6, 5);
    let mut right = Snake::from_segments(&vec![cell(4, 4), cell(3, 4)], Direction::Right).unwrap();
    assert!(right.step(false, &cfg));
    assert_eq!(right.head(), cell(5, 4));
    let mut up = Snake::from_segments(&vec![cell(1, 2), cell(1, 3)], Direction::Up).unwrap();
    assert!(up.step(false, &cfg));
    assert_eq!(up.head(), cell(1, 1));
}

#[test]
fn head_may_enter_the_tail_cell_when_the_tail_leaves() {
    let cells = vec![cell(1, 1), cell(1, 2), cell(2, 2), cell(2, 1)];
    let mut s = Snake::from_segments(&cells, Direction::Right).unwrap();
    assert!(s.update_snake(1, &grid(20, 20)));
    assert_eq!(s.segments(), vec![cell(2, 1), cell(1, 1), cell(1, 2), cell(2, 2)]);
}

#[test]
fn head_may_not_enter_the_tail_cell_when_the_snake_grows() {
    let cells = vec![cell(1, 1), cell(1, 2), cell(2, 2), cell(2, 1)];
    let mut s = Snake::from_segments(&cells, Direction::Right).unwrap();
    assert!(!s.update_snake(10, &grid(20, 20)));
    assert_eq!(s.segments(), cells);
}

#[test]
fn running_into_the_body_is_fatal() {
    let cells = vec![cell(2, 2), cell(2, 3), cell(3, 3), cell(3, 2), cell(3, 1)];
    let mut s = Snake::from_segments(&cells, Direction::Right).unwrap();
    assert!(!s.step(false, &grid(20, 20)));
    assert_eq!(s.segments(), cells);
}

#[test]
fn head_moves_one_cell_in_each_heading() {
    let cfg = grid(20, 20);
    for (d, to) in [
        (Direction::Up, cell(5, 4)),
        (Direction::Down, cell(5, 6)),
        (Direction::Left, cell(4, 5)),
        (Direction::Right, cell(6, 5)),
    ] {
        let mut s = Snake::from_segments(&vec![cell(5, 5)], d).unwrap();
        assert!(s.step(false, &cfg));
        assert_eq!(s.segments(), vec![to]);
    }
}

#[test]
fn neighbour_does_not_wrap() {
    assert_eq!(cell(0, 7).neighbour(Direction::Left), None);
    assert_eq!(cell(7, 0).neighbour(Direction::Up), None);
    assert_eq!(cell(u16::MAX, 7).neighbour(Direction::Right), None);
    assert_eq!(cell(7, u16::MAX).neighbour(Direction::Down), None);
    assert_eq!(cell(1, 5).neighbour(Direction::Left), Some(cell(0, 5)));
    assert_eq!(cell(1, 5).neighbour(Direction::Down), Some(cell(1, 6)));
    assert_eq!(Location::new(2, 9), cell(2, 9));
}

#[test]
fn opposite_headings() {
    assert_eq!(Direction::Up.opposite(), Direction::Down);
    assert_eq!(Direction::Down.opposite(), Direction::Up);
    assert_eq!(Direction::Left.opposite(), Direction::Right);
    assert_eq!(Direction::Right.opposite(), Direction::Left);
}

#[test]
fn strict_turn_rejects_a_reversal() {
    let mut s = Snake::new();
    s.set_direction(Direction::Left);
    assert_eq!(s.direction(), Direction::Right);
    assert_eq!(s.segments(), vec![cell(3, 1), cell(2, 1), cell(1, 1)]);
}

#[test]
fn other_turns_are_taken() {
    let mut s = Snake::new();
    s.set_direction(Direction::Down);
    assert_eq!(s.direction(), Direction::Down);
    s.set_direction(Direction::Down);
    assert_eq!(s.direction(), Direction::Down);
    s.set_direction(Direction::Up);
    assert_eq!(s.direction(), Direction::Down);
    s.set_direction(Direction::Left);
    assert_eq!(s.direction(), Direction::Left);
}

#[test]
fn a_single_cell_may_reverse() {
    let mut s = Snake::from_segments(&vec![cell(5, 5)], Direction::Right).unwrap();
    s.set_direction(Direction::Left);
    assert_eq!(s.direction(), Direction::Left);
}

#[test]
fn from_segments_rejects_empty_and_repeated_cells() {
    assert!(Snake::from_segments(&vec![], Direction::Up).is_none());
    assert!(Snake::from_segments(&vec![cell(1, 1), cell(2, 1), cell(1, 1)], Direction::Up).is_none());
    assert!(Snake::from_segments(&vec![cell(1, 1), cell(1, 1)], Direction::Up).is_none());
    assert!(Snake::from_segments(&vec![cell(1, 1), cell(2, 1)], Direction::Up).is_some());
}

#[test]
fn all_distinct_finds_a_repeat_anywhere() {
    assert!(all_distinct(&vec![]));
    assert!(all_distinct(&vec![cell(1, 2)]));
    assert!(all_distinct(&vec![cell(1, 2), cell(2, 1), cell(1, 1)]));
    assert!(!all_distinct(&vec![cell(1, 2), cell(2, 1), cell(2, 1)]));
    assert!(!all_distinct(&vec![cell(1, 2), cell(2, 1), cell(3, 3), cell(1, 2)]));
}

#[test]
fn hit_tail_finds_every_cell_of_the_snake() {
    let s = Snake::new();
    assert!(s.hit_tail(3, 1));
    assert!(s.hit_tail(2, 1));
    assert!(s.hit_tail(1, 1));
    assert!(!s.hit_tail(4, 1));
    assert!(!s.hit_tail(1, 3));
}

#[test]
fn hits_first_looks_at_a_prefix_only() {
    let s = Snake::new();
    assert!(s.hits_first(cell(2, 1), 2));
    assert!(!s.hits_first(cell(1, 1), 2));
    assert!(s.hits_first(cell(1, 1), 3));
    assert!(!s.hits_first(cell(3, 1), 0));
}

#[test]
fn hit_compares_the_head_with_the_food() {
    let s = Snake::new();
    assert!(s.hit(&Food { pos: cell(3, 1) }));
    assert!(!s.hit(&Food { pos: cell(2, 1) }));
    assert!(!s.hit(&Food { pos: cell(3, 2) }));
}

#[test]
fn stays_within_checks_every_cell() {
    let s = Snake::new();
    assert!(s.stays_within(&grid(4, 2)));
    let cfg = Config { cols: 3, rows: 2, growth: Growth::OnFood, frame_ms: 250, poll_ms: 10 };
    assert!(!s.stays_within(&cfg));
    let low = Snake::from_segments(&vec![cell(2, 1), cell(2, 0)], Direction::Down).unwrap();
    assert!(!low.stays_within(&grid(20, 20)));
}
