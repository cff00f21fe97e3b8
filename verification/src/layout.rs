//! Screen geometry for the scoreboard: where the club emblems go.

use vstd::prelude::*;

verus! {

/// A rectangle of terminal cells.
#[derive(Debug, Clone, Copy, PartialEq, Eq, Structural)]
pub struct Rect {
    pub x: u16,
    pub y: u16,
    pub width: u16,
    pub height: u16,
}

impl Rect {
    pub fn new(x: u16, y: u16, width: u16, height: u16) -> (r: Rect)
        ensures
            r == (Rect { x, y, width, height }),
    {
        Rect { x, y, width, height }
    }
}

/// The width of the emblem square in a column: as wide as the column, but
/// no wider than twice its height (terminal cells are about twice as tall as
/// wide), and at least one cell.
pub open spec fn square_width(col: Rect) -> int {
    let twice = if 2 * col.height > u16::MAX { u16::MAX as int } else { 2 * col.height };
    let w = if col.width <= twice { col.width as int } else { twice };
    if w >= 1 { w } else { 1 }
}

/// The height of the emblem square: half its width, no taller than the
/// column, and at least one cell.
pub open spec fn square_height(col: Rect) -> int {
    let h = if square_width(col) / 2 <= col.height { square_width(col) / 2 } else { col.height as int };
    if h >= 1 { h } else { 1 }
}

/// The largest aspect-correct (about square) rectangle centred in `col`.
pub open spec fn centred_square(col: Rect) -> Rect {
    Rect {
        x: (col.x + (col.width - square_width(col)) / 2) as u16,
        y: (col.y + (col.height - square_height(col)) / 2) as u16,
        width: square_width(col) as u16,
        height: square_height(col) as u16,
    }
}

/// Largest aspect-correct (≈square) rect centred within `col`, assuming
/// terminal cells are about twice as tall as they are wide. Centring keeps
/// the emblem level with the score text.
pub fn square_in(col: Rect) -> (r: Rect)
    requires
        col.width >= 1,
        col.height >= 1,
        col.x + (col.width - square_width(col)) / 2 <= u16::MAX,
        col.y + (col.height - square_height(col)) / 2 <= u16::MAX,
    ensures
        r == centred_square(col),
{
    let twice: u16 = if col.height > 32767 { u16::MAX } else { col.height * 2 };
    let mut width = if col.width <= twice { col.width } else { twice };
    if width < 1 {
        width = 1;
    }
    let half = width / 2;
    let mut height = if half <= col.height { half } else { col.height };
    if height < 1 {
        height = 1;
    }
    Rect {
        x: col.x + (col.width - width) / 2,
        y: col.y + (col.height - height) / 2,
        width,
        height,
    }
}

/// Width of the score block between the emblems.
pub const SCORE_WIDTH: u16 = 46;

/// The width of each emblem column on a scoreboard of the given inner size,
/// when the emblems fit beside the score block: twice the height, so the
/// emblem can be square.
pub open spec fn emblem_width(width: u16, height: u16) -> Option<u16> {
    let logo = if 2 * height > u16::MAX { u16::MAX as int } else { 2 * height };
    if logo > 0 && width >= 2 * logo + SCORE_WIDTH { Some(logo as u16) } else { None }
}

/// Decides whether the scoreboard flanks the score with the clubs' emblems,
/// and how wide each emblem column is.
pub fn emblem_columns(width: u16, height: u16) -> (r: Option<u16>)
    ensures
        r == emblem_width(width, height),
{
    let logo: u16 = if height > 32767 { u16::MAX } else { height * 2 };
    if logo > 0 && (width as u32) >= 2 * (logo as u32) + (SCORE_WIDTH as u32) {
        Some(logo)
    } else {
        None
    }
}

} // verus!
