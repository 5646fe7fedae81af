use snake_core::grid::{Cell, Direction};
use snake_core::snake::Snake;

#[test]
fn fresh_snake_has_two_cells_headed_right() {
    let s = Snake::new();
    assert_eq!(s.size(), 2);
    assert_eq!(s.head(), Cell { x: 1, y: 0 });
    assert_eq!(s.direction(), Direction::Right);
    assert!(s.occupies(Cell { x: 0, y: 0 }));
    assert!(!s.is_collided());
}

#[test]
fn set_direction_rejects_the_exact_reverse() {
    let mut s = Snake::new();
    s.set_direction(Direction::Left);
    assert_eq!(s.direction(), Direction::Right);
    s.set_direction(Direction::Up);
    assert_eq!(s.direction(), Direction::Up);
    s.set_direction(Direction::Down);
    assert_eq!(s.direction(), Direction::Up);
    s.set_direction(Direction::Left);
    assert_eq!(s.direction(), Direction::Left);
}

#[test]
fn tick_gates_on_the_fixed_interval() {
    let mut s = Snake::new();
    s.tick(50);
    s.tick(50);
    s.tick(50);
    assert_eq!(s.head(), Cell { x: 1, y: 0 });
    s.tick(50);
    assert_eq!(s.head(), Cell { x: 2, y: 0 });
}

#[test]
fn four_short_ticks_give_no_step_and_a_fifth_gives_one() {
    let mut s = Snake::new();
    for _ in 0..4 {
        s.tick(49);
        assert_eq!(s.head(), Cell { x: 1, y: 0 });
    }
    s.tick(49);
    assert_eq!(s.head(), Cell { x: 2, y: 0 });
    assert_eq!(s.size(), 2);
}

#[test]
fn one_large_delta_coalesces_into_several_steps() {
    let mut s = Snake::new();
    s.tick(450);
    assert_eq!(s.head(), Cell { x: 3, y: 0 });
    assert_eq!(s.size(), 2);
    s.tick(150);
    assert_eq!(s.head(), Cell { x: 4, y: 0 });
}

#[test]
fn ticking_without_eating_keeps_the_length_and_shifts_the_body() {
    let mut s = Snake::new();
    for _ in 0..100 {
        let old_head = s.head();
        s.tick(200);
        assert!(!s.is_collided());
        assert_eq!(s.size(), 2);
        assert!(s.occupies(old_head));
        assert_ne!(s.head(), old_head);
    }
}

#[test]
fn grow_reappends_the_dropped_tail_once() {
    let mut s = Snake::new();
    s.tick(200);
    assert_eq!(s.size(), 2);
    assert!(!s.occupies(Cell { x: 0, y: 0 }));
    s.grow();
    assert_eq!(s.size(), 3);
    assert!(s.occupies(Cell { x: 0, y: 0 }));
    s.grow();
    assert_eq!(s.size(), 3);
}

#[test]
fn stepping_into_the_body_collides_and_freezes_the_snake() {
    let mut s = Snake::new();
    s.tick(200);
    s.grow();
    s.tick(200);
    s.grow();
    assert_eq!(s.size(), 4);
    assert_eq!(s.head(), Cell { x: 3, y: 0 });
    s.set_direction(Direction::Down);
    s.tick(200);
    assert_eq!(s.head(), Cell { x: 3, y: 1 });
    s.set_direction(Direction::Left);
    s.tick(200);
    assert_eq!(s.head(), Cell { x: 2, y: 1 });
    s.set_direction(Direction::Up);
    let collided = s.tick(200);
    assert!(collided);
    assert!(s.is_collided());
    assert_eq!(s.size(), 4);
    assert_eq!(s.head(), Cell { x: 2, y: 1 });
    let still = s.tick(200);
    assert!(still);
    assert_eq!(s.head(), Cell { x: 2, y: 1 });
}
