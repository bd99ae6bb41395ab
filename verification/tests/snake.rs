use snake_core::grid::{Direction, GridPosition};
use snake_core::snake::{Ate, ColorTag, Food, Snake};

fn body_positions(s: &Snake) -> Vec<GridPosition> {
    s.body.iter().map(|seg| seg.pos).collect()
}

#[test]
fn new_snake_has_one_segment_behind_the_head() {
    let s = Snake::new(GridPosition::new(7, 10));
    assert_eq!(s.head.pos, GridPosition::new(7, 10));
    assert_eq!(s.dir, Direction::Right);
    assert_eq!(s.last_update_dir, Direction::Right);
    assert_eq!(s.next_dir, None);
    assert_eq!(s.ate, None);
    assert_eq!(body_positions(&s), vec![GridPosition::new(6, 10)]);
}

#[test]
fn eats_food_under_the_head_only() {
    let s = Snake::new(GridPosition::new(7, 10));
    assert!(s.eats(&Food::new(GridPosition::new(7, 10))));
    assert!(!s.eats(&Food::new(GridPosition::new(8, 10))));
}

#[test]
fn first_advance_onto_food_grows_by_one() {
    let mut s = Snake::new(GridPosition::new(7, 10));
    let food = Food::new(GridPosition::new(8, 10));
    s.update(&food, 30, 20);
    assert_eq!(s.ate, Some(Ate::Food));
    assert_eq!(s.head.pos, GridPosition::new(8, 10));
    assert_eq!(
        body_positions(&s),
        vec![GridPosition::new(7, 10), GridPosition::new(6, 10)]
    );
}

#[test]
fn advance_without_food_keeps_length() {
    let mut s = Snake::new(GridPosition::new(7, 10));
    let food = Food::new(GridPosition::new(0, 0));
    s.update(&food, 30, 20);
    assert_eq!(s.ate, None);
    assert_eq!(s.head.pos, GridPosition::new(8, 10));
    assert_eq!(body_positions(&s), vec![GridPosition::new(7, 10)]);
}

#[test]
fn pending_direction_queues_across_ticks() {
    let mut s = Snake::new(GridPosition::new(7, 10));
    let food = Food::new(GridPosition::new(0, 0));
    // Down commits at once: nothing has diverged yet.
    s.set_pending_direction(Direction::Down);
    assert_eq!(s.dir, Direction::Down);
    assert_eq!(s.next_dir, None);
    // Left queues: Down has not been applied yet.
    s.set_pending_direction(Direction::Left);
    assert_eq!(s.dir, Direction::Down);
    assert_eq!(s.next_dir, Some(Direction::Left));
    // First tick applies Down, keeping Left queued.
    s.update(&food, 30, 20);
    assert_eq!(s.head.pos, GridPosition::new(7, 11));
    assert_eq!(s.dir, Direction::Down);
    assert_eq!(s.next_dir, Some(Direction::Left));
    // Second tick promotes Left.
    s.update(&food, 30, 20);
    assert_eq!(s.head.pos, GridPosition::new(6, 11));
    assert_eq!(s.dir, Direction::Left);
    assert_eq!(s.next_dir, None);
}

#[test]
fn exact_reverse_of_last_applied_is_ignored() {
    let mut s = Snake::new(GridPosition::new(7, 10));
    s.set_pending_direction(Direction::Left);
    assert_eq!(s.dir, Direction::Right);
    assert_eq!(s.next_dir, None);
}

#[test]
fn down_then_up_while_moving_right_never_reverses() {
    let mut s = Snake::new(GridPosition::new(7, 10));
    let food = Food::new(GridPosition::new(0, 0));
    s.set_pending_direction(Direction::Down);
    // Up reverses the committed Down, so it is not queued; it does not
    // reverse the last-applied Right, so it commits directly.
    s.set_pending_direction(Direction::Up);
    assert_eq!(s.dir, Direction::Up);
    assert_eq!(s.next_dir, None);
    s.update(&food, 30, 20);
    // The snake moved up, away from its neck at (6,10): no reversal.
    assert_eq!(s.head.pos, GridPosition::new(7, 9));
    assert_eq!(s.ate, None);
    assert_ne!(s.dir, Direction::Left);
}

#[test]
fn advance_wraps_around_the_grid() {
    let mut s = Snake::new(GridPosition::new(29, 10));
    let food = Food::new(GridPosition::new(5, 5));
    s.update(&food, 30, 20);
    assert_eq!(s.head.pos, GridPosition::new(0, 10));
    assert_eq!(s.ate, None);
    assert_eq!(body_positions(&s), vec![GridPosition::new(29, 10)]);
}

#[test]
fn render_hints_cover_head_and_body() {
    let s = Snake::new(GridPosition::new(7, 10));
    let (hp, hc) = s.head_render_hint();
    assert_eq!(hp, GridPosition::new(7, 10));
    assert_eq!(hc, ColorTag::SnakeHead);
    let hints = s.body_render_hints();
    assert_eq!(hints, vec![(GridPosition::new(6, 10), ColorTag::SnakeBody)]);
}

#[test]
fn food_render_hint_is_its_cell() {
    let f = Food::new(GridPosition::new(3, 4));
    assert_eq!(f.render_hint(), (GridPosition::new(3, 4), ColorTag::Food));
}

#[test]
fn relocate_draws_a_cell_on_the_grid() {
    let mut rng = oorandom::Rand32::new(11);
    let mut f = Food::new(GridPosition::new(3, 4));
    for _ in 0..100 {
        f.relocate(&mut rng, 30, 20);
        assert!(0 <= f.pos.x && f.pos.x < 30 && 0 <= f.pos.y && f.pos.y < 20);
    }
}
