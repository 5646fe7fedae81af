use snake_core::grid::{advance, opposite, Cell, Direction, BOARD_HEIGHT, BOARD_WIDTH};

#[test]
fn advance_moves_one_cell_in_the_interior() {
    let c = Cell { x: 5, y: 5 };
    assert_eq!(advance(c, Direction::Right), Cell { x: 6, y: 5 });
    assert_eq!(advance(c, Direction::Left), Cell { x: 4, y: 5 });
    assert_eq!(advance(c, Direction::Up), Cell { x: 5, y: 4 });
    assert_eq!(advance(c, Direction::Down), Cell { x: 5, y: 6 });
}

#[test]
fn advance_wraps_at_every_edge() {
    assert_eq!(
        advance(Cell { x: 0, y: 7 }, Direction::Left),
        Cell { x: BOARD_WIDTH - 1, y: 7 }
    );
    assert_eq!(
        advance(Cell { x: 9, y: 0 }, Direction::Up),
        Cell { x: 9, y: BOARD_HEIGHT - 1 }
    );
    assert_eq!(
        advance(Cell { x: BOARD_WIDTH - 1, y: 7 }, Direction::Right),
        Cell { x: 0, y: 7 }
    );
    assert_eq!(
        advance(Cell { x: 9, y: BOARD_HEIGHT - 1 }, Direction::Down),
        Cell { x: 9, y: 0 }
    );
}

#[test]
fn advance_then_reverse_returns_home() {
    let cells = [
        Cell { x: 0, y: 0 },
        Cell { x: 5, y: 5 },
        Cell { x: BOARD_WIDTH - 1, y: BOARD_HEIGHT - 1 },
        Cell { x: 0, y: BOARD_HEIGHT - 1 },
        Cell { x: BOARD_WIDTH - 1, y: 0 },
    ];
    let dirs = [Direction::Up, Direction::Down, Direction::Left, Direction::Right];
    for &c in cells.iter() {
        for &d in dirs.iter() {
            assert_eq!(advance(advance(c, d), opposite(d)), c);
        }
    }
}

#[test]
fn opposite_swaps_each_axis() {
    assert_eq!(opposite(Direction::Up), Direction::Down);
    assert_eq!(opposite(Direction::Down), Direction::Up);
    assert_eq!(opposite(Direction::Left), Direction::Right);
    assert_eq!(opposite(Direction::Right), Direction::Left);
}
