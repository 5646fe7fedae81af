//! The toroidal board: cells, directions, and single-step movement with
//! wraparound on both axes.

use vstd::prelude::*;

verus! {

/// Number of cells along the horizontal axis.
pub const BOARD_WIDTH: u32 = 30;

/// Number of cells along the vertical axis.
pub const BOARD_HEIGHT: u32 = 20;

/// Side of one cell, in pixels, for rendering.
pub const CELL_SIZE_PX: u32 = 20;

/// One square of the board, compared by value.
#[derive(Clone, Copy, PartialEq, Eq, Structural, Debug)]
pub struct Cell {
    pub x: u32,
    pub y: u32,
}

/// The four directions the snake can travel in.
#[derive(Clone, Copy, PartialEq, Eq, Structural, Debug)]
pub enum Direction {
    Up,
    Down,
    Left,
    Right,
}

/// A cell lies on the board.
pub open spec fn cell_in_bounds(c: Cell) -> bool {
    c.x < BOARD_WIDTH && c.y < BOARD_HEIGHT
}

/// The direct reverse of a direction.
pub open spec fn opposite_spec(d: Direction) -> Direction {
    match d {
        Direction::Up => Direction::Down,
        Direction::Down => Direction::Up,
        Direction::Left => Direction::Right,
        Direction::Right => Direction::Left,
    }
}

/// The cell one step away in direction `d`, wrapping each axis independently.
pub open spec fn advance_spec(c: Cell, d: Direction) -> Cell {
    match d {
        Direction::Up => Cell {
            x: c.x,
            y: if c.y == 0 { (BOARD_HEIGHT - 1) as u32 } else { (c.y - 1) as u32 },
        },
        Direction::Down => Cell {
            x: c.x,
            y: if c.y + 1 == BOARD_HEIGHT { 0 as u32 } else { (c.y + 1) as u32 },
        },
        Direction::Left => Cell {
            x: if c.x == 0 { (BOARD_WIDTH - 1) as u32 } else { (c.x - 1) as u32 },
            y: c.y,
        },
        Direction::Right => Cell {
            x: if c.x + 1 == BOARD_WIDTH { 0 as u32 } else { (c.x + 1) as u32 },
            y: c.y,
        },
    }
}

#[verifier::when_used_as_spec(opposite_spec)]
pub fn opposite(d: Direction) -> (r: Direction)
    ensures
        r == opposite_spec(d),
{
    match d {
        Direction::Up => Direction::Down,
        Direction::Down => Direction::Up,
        Direction::Left => Direction::Right,
        Direction::Right => Direction::Left,
    }
}

/// Move one step in direction `d` with toroidal wraparound; pure and total
/// on in-bounds cells.
pub fn advance(c: Cell, d: Direction) -> (r: Cell)
    requires
        cell_in_bounds(c),
    ensures
        r == advance_spec(c, d),
        cell_in_bounds(r),
{
    match d {
        Direction::Up => Cell {
            x: c.x,
            y: if c.y == 0 { BOARD_HEIGHT - 1 } else { c.y - 1 },
        },
        Direction::Down => Cell {
            x: c.x,
            y: if c.y + 1 == BOARD_HEIGHT { 0 } else { c.y + 1 },
        },
        Direction::Left => Cell {
            x: if c.x == 0 { BOARD_WIDTH - 1 } else { c.x - 1 },
            y: c.y,
        },
        Direction::Right => Cell {
            x: if c.x + 1 == BOARD_WIDTH { 0 } else { c.x + 1 },
            y: c.y,
        },
    }
}

/// Movement is locally invertible: one step in `d` followed by one step in
/// the reverse of `d` returns to the starting cell.
pub proof fn lemma_advance_round_trip(c: Cell, d: Direction)
    requires
        cell_in_bounds(c),
    ensures
        advance_spec(advance_spec(c, d), opposite_spec(d)) == c,
{
}

/// Wraparound at the edges: leaving the board on one side reenters from the
/// opposite side.
pub proof fn lemma_advance_wraps(c: Cell)
    requires
        cell_in_bounds(c),
    ensures
        c.x == 0 ==> advance_spec(c, Direction::Left).x == BOARD_WIDTH - 1,
        c.y == 0 ==> advance_spec(c, Direction::Up).y == BOARD_HEIGHT - 1,
        c.x == BOARD_WIDTH - 1 ==> advance_spec(c, Direction::Right).x == 0,
        c.y == BOARD_HEIGHT - 1 ==> advance_spec(c, Direction::Down).y == 0,
{
}

/// A number naming each board cell: column-major, `x * BOARD_HEIGHT + y`.
pub open spec fn cell_id(c: Cell) -> int {
    c.x * BOARD_HEIGHT + c.y
}

/// A sequence of cells that covers the whole board holds at least as many
/// entries as the board has cells.
pub proof fn lemma_covering_seq_len(s: Seq<Cell>)
    requires
        forall|c: Cell| cell_in_bounds(c) ==> s.contains(c),
    ensures
        s.len() >= BOARD_WIDTH * BOARD_HEIGHT,
{
    broadcast use vstd::seq_lib::seq_to_set_is_finite;

    let area = (BOARD_WIDTH * BOARD_HEIGHT) as int;
    let ids = s.map_values(|c: Cell| cell_id(c));
    let range = vstd::set_lib::set_int_range(0, area);
    assert forall|k: int| range.contains(k) implies ids.to_set().contains(k) by {
        let h = BOARD_HEIGHT as int;
        let c = Cell { x: (k / h) as u32, y: (k % h) as u32 };
        assert(0 <= k % h < h);
        assert(0 <= k / h < BOARD_WIDTH) by {
            vstd::arithmetic::div_mod::lemma_div_is_ordered(k, area - 1, h);
        }
        assert(cell_id(c) == k) by {
            vstd::arithmetic::div_mod::lemma_fundamental_div_mod(k, h);
        }
        assert(cell_in_bounds(c));
        assert(s.contains(c));
        let i = choose|i: int| 0 <= i < s.len() && s[i] == c;
        assert(ids[i] == k);
        assert(ids.contains(k));
    }
    vstd::set_lib::lemma_int_range(0, area);
    vstd::set_lib::lemma_len_subset(range, ids.to_set());
    ids.lemma_cardinality_of_set();
}

} // verus!
