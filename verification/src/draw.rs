//! Abstract drawing: the library describes a frame as a sequence of draw
//! commands over integer pixel coordinates; the host turns them into real
//! graphics calls.

use vstd::prelude::*;

use crate::grid::{Cell, CELL_SIZE_PX};

verus! {

/// Font size, in pixels, of every piece of text drawn.
pub const TEXT_SIZE_PX: u32 = 12;

/// The palette the screens draw with.
#[derive(Clone, Copy, PartialEq, Eq, Structural, Debug)]
pub enum Color {
    Green,
    Red,
    Orange,
    Black,
}

/// A piece of text a screen can show; the score carries its value so the
/// host can spell it out.
#[derive(Clone, Copy, PartialEq, Eq, Structural, Debug)]
pub enum Label {
    Title,
    NewGameEntry,
    QuitEntry,
    Cursor,
    YouLost,
    Score(usize),
}

/// One drawing instruction, in pixels from the top-left corner.
#[derive(Clone, Copy, PartialEq, Eq, Structural, Debug)]
pub enum DrawCmd {
    Clear(Color),
    Rect { color: Color, x: u32, y: u32, side: u32 },
    Text { label: Label, x: u32, y: u32, size: u32 },
}

/// The square covering a cell: the cell scaled to pixels.
pub open spec fn cell_square_spec(c: Cell, color: Color) -> DrawCmd {
    DrawCmd::Rect {
        color,
        x: (c.x * CELL_SIZE_PX) as u32,
        y: (c.y * CELL_SIZE_PX) as u32,
        side: CELL_SIZE_PX,
    }
}

/// The square covering a cell.
pub fn cell_square(c: Cell, color: Color) -> (r: DrawCmd)
    requires
        crate::grid::cell_in_bounds(c),
    ensures
        r == cell_square_spec(c, color),
{
    DrawCmd::Rect { color, x: c.x * CELL_SIZE_PX, y: c.y * CELL_SIZE_PX, side: CELL_SIZE_PX }
}

} // verus!
