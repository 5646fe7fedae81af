use snake_core::draw::{Color, DrawCmd, Label};
use snake_core::game::Lost;
use snake_core::grid::{opposite, Cell, Direction, CELL_SIZE_PX};
use snake_core::input::Key;
use snake_core::menu::Menu;
use snake_core::state_machine::{State, StateMachine};

fn key_of(d: Direction) -> Key {
    match d {
        Direction::Up => Key::Up,
        Direction::Down => Key::Down,
        Direction::Left => Key::Left,
        Direction::Right => Key::Right,
    }
}

/// Read the snake's head (the first body square) and the apple (the
/// orange square) out of a rendered session frame.
fn head_and_apple(frame: &[DrawCmd]) -> (Cell, Cell) {
    let mut head = None;
    let mut apple = None;
    for cmd in frame {
        if let DrawCmd::Rect { color, x, y, .. } = cmd {
            match color {
                Color::Red => {
                    if head.is_none() {
                        head = Some(Cell { x: x / CELL_SIZE_PX, y: y / CELL_SIZE_PX });
                    }
                }
                Color::Orange => apple = Some(Cell { x: x / CELL_SIZE_PX, y: y / CELL_SIZE_PX }),
                _ => {}
            }
        }
    }
    (head.expect("a session frame shows the body"), apple.expect("a session frame shows the apple"))
}

fn body_len(frame: &[DrawCmd]) -> usize {
    frame
        .iter()
        .filter(|cmd| matches!(cmd, DrawCmd::Rect { color: Color::Red, .. }))
        .count()
}

fn is_menu_frame(frame: &[DrawCmd]) -> bool {
    frame.iter().any(|cmd| matches!(cmd, DrawCmd::Text { label: Label::Title, .. }))
}

fn lost_score(frame: &[DrawCmd]) -> Option<usize> {
    frame.iter().find_map(|cmd| match cmd {
        DrawCmd::Text { label: Label::Score(n), .. } => Some(*n),
        _ => None,
    })
}

/// Steer the session on top of the machine one step closer to the apple,
/// reading the board from the rendered frame and mirroring the direction
/// the machine was last told to take.
fn drive_step(sm: &mut StateMachine, mirror: &mut Direction) {
    let f = sm.render();
    let (h, a) = head_and_apple(&f);
    let mut cands: Vec<Direction> = Vec::new();
    if a.x != h.x {
        cands.push(if a.x > h.x { Direction::Right } else { Direction::Left });
    }
    if a.y != h.y {
        cands.push(if a.y > h.y { Direction::Down } else { Direction::Up });
    }
    let pick = cands.iter().copied().find(|&c| c != opposite(*mirror));
    let dir = match pick {
        Some(c) => c,
        None => match *mirror {
            Direction::Left | Direction::Right => Direction::Down,
            Direction::Up | Direction::Down => Direction::Right,
        },
    };
    sm.handle_event(key_of(dir));
    *mirror = dir;
    sm.update(200);
}

fn eat_one_apple(sm: &mut StateMachine, mirror: &mut Direction) {
    let before = body_len(&sm.render());
    for _ in 0..500 {
        if body_len(&sm.render()) > before {
            return;
        }
        drive_step(sm, mirror);
    }
    panic!("the snake never reached the apple");
}

#[test]
fn machine_waits_until_started() {
    let mut sm = StateMachine::new(State::Menu(Menu::new()));
    assert!(!sm.is_running());
    assert_eq!(sm.depth(), 1);
    assert!(sm.render().is_empty());
    sm.handle_event(Key::Enter);
    sm.update(200);
    assert_eq!(sm.depth(), 1);
    assert!(!sm.is_running());
    sm.start();
    assert!(sm.is_running());
    assert_eq!(sm.depth(), 1);
    assert!(is_menu_frame(&sm.render()));
    sm.start();
    assert!(sm.is_running());
    assert_eq!(sm.depth(), 1);
}

#[test]
fn popping_the_only_state_stops_the_machine() {
    let mut sm = StateMachine::new(State::Lost(Lost(3)));
    sm.start();
    assert!(sm.is_running());
    assert_eq!(sm.depth(), 1);
    sm.handle_event(Key::Enter);
    assert!(!sm.is_running());
    assert_eq!(sm.depth(), 0);
    assert!(sm.render().is_empty());
}

#[test]
fn quit_from_the_menu_empties_the_stack() {
    let mut sm = StateMachine::new(State::Menu(Menu::new()));
    sm.start();
    sm.handle_event(Key::Up);
    sm.handle_event(Key::Enter);
    assert!(!sm.is_running());
    assert_eq!(sm.depth(), 0);
}

#[test]
fn a_full_session_pushes_switches_pops_and_quits() {
    let mut sm = StateMachine::new(State::Menu(Menu::new()));
    sm.start();
    assert!(is_menu_frame(&sm.render()));

    sm.handle_event(Key::Enter);
    assert_eq!(sm.depth(), 2);
    assert!(sm.is_running());
    let f = sm.render();
    assert!(!is_menu_frame(&f), "the pushed session hides the paused menu");
    assert_eq!(body_len(&f), 2);
    let (h, _) = head_and_apple(&f);
    assert_eq!(h, Cell { x: 1, y: 0 });

    sm.update(200);
    let f = sm.render();
    let (h, _) = head_and_apple(&f);
    assert_eq!(h, Cell { x: 2, y: 0 }, "updates reach the session, not the menu");

    let mut mirror = Direction::Right;
    eat_one_apple(&mut sm, &mut mirror);
    eat_one_apple(&mut sm, &mut mirror);
    assert_eq!(body_len(&sm.render()), 4);

    let d = mirror;
    let p = match d {
        Direction::Left | Direction::Right => Direction::Down,
        Direction::Up | Direction::Down => Direction::Right,
    };
    let turns = [None, None, None, Some(p), Some(opposite(d)), Some(opposite(p))];
    let mut score_seen = None;
    for turn in turns.iter() {
        if let Some(dir) = turn {
            sm.handle_event(key_of(*dir));
        }
        let size_before = body_len(&sm.render());
        sm.update(200);
        if let Some(score) = lost_score(&sm.render()) {
            assert_eq!(score, size_before);
            score_seen = Some(score);
            break;
        }
    }
    assert!(score_seen.is_some(), "the maneuver must end on the game-over screen");
    assert_eq!(sm.depth(), 2, "switching to the game-over screen keeps the depth");
    assert!(sm.is_running());

    sm.handle_event(Key::Enter);
    assert_eq!(sm.depth(), 1);
    assert!(sm.is_running());
    assert!(is_menu_frame(&sm.render()), "popping the game-over screen resumes the menu");

    sm.handle_event(Key::Up);
    sm.handle_event(Key::Enter);
    assert!(!sm.is_running());
    assert_eq!(sm.depth(), 0);
}
