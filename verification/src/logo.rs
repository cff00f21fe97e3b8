//! Club emblems as pixel tiles: guernsey stripes and bands, and monogram
//! bitmaps scaled onto a square canvas. The interface hands the finished
//! tile to the terminal's graphics protocol.

use vstd::prelude::*;
use vstd::string::StringSliceAdditionalSpecFns;
use crate::teams::{Glyph, Rgb};

verus! {

/// Pixel width and height of the square canvas every emblem is drawn on.
pub const SIZE: u32 = 48;

/// Number of guernsey stripes across a tile.
pub const STRIPES: u32 = 6;

/// A square tile of pixels, row by row from the top.
pub struct Canvas {
    pub rows: Vec<Vec<Rgb>>,
}

/// The tile is `SIZE` rows of `SIZE` pixels.
pub open spec fn is_square(c: Canvas) -> bool {
    &&& c.rows@.len() == SIZE
    &&& forall|y: int| 0 <= y < SIZE ==> (#[trigger] c.rows@[y])@.len() == SIZE
}

/// The colour of the pixel in column `x` of row `y`.
pub open spec fn pixel(c: Canvas, x: int, y: int) -> Rgb {
    c.rows@[y]@[x]
}

/// A tile of one colour.
pub fn fill(colour: Rgb) -> (c: Canvas)
    ensures
        is_square(c),
        forall|x: int, y: int| 0 <= x < SIZE && 0 <= y < SIZE ==> #[trigger] pixel(c, x, y) == colour,
{
    let mut rows: Vec<Vec<Rgb>> = Vec::new();
    let mut y: u32 = 0;
    while y < SIZE
        invariant
            y <= SIZE,
            rows@.len() == y,
            forall|j: int| 0 <= j < y ==> (#[trigger] rows@[j])@.len() == SIZE,
            forall|i: int, j: int| 0 <= i < SIZE && 0 <= j < y ==> #[trigger] rows@[j]@[i] == colour,
        decreases SIZE - y,
    {
        let mut row: Vec<Rgb> = Vec::new();
        let mut x: u32 = 0;
        while x < SIZE
            invariant
                x <= SIZE,
                row@.len() == x,
                forall|i: int| 0 <= i < x ==> #[trigger] row@[i] == colour,
            decreases SIZE - x,
        {
            row.push(colour);
            x = x + 1;
        }
        rows.push(row);
        y = y + 1;
    }
    Canvas { rows }
}

/// The stripe colour at offset `axis` across the tile: six equal stripes
/// cycling through the colours.
pub open spec fn stripe_colour(colours: Seq<Rgb>, axis: int) -> Rgb {
    colours[(axis * (STRIPES as int) / (SIZE as int)) % (colours.len() as int)]
}

/// Six guernsey stripes cycling `colours`; `vertical` gives vertical bars,
/// else horizontal ones.
pub fn stripes(colours: &[Rgb], vertical: bool) -> (c: Canvas)
    requires
        colours@.len() > 0,
    ensures
        is_square(c),
        forall|x: int, y: int| 0 <= x < SIZE && 0 <= y < SIZE ==> #[trigger] pixel(c, x, y)
            == stripe_colour(colours@, if vertical { x } else { y }),
{
    let mut rows: Vec<Vec<Rgb>> = Vec::new();
    let mut y: u32 = 0;
    while y < SIZE
        invariant
            colours@.len() > 0,
            y <= SIZE,
            rows@.len() == y,
            forall|j: int| 0 <= j < y ==> (#[trigger] rows@[j])@.len() == SIZE,
            forall|i: int, j: int| 0 <= i < SIZE && 0 <= j < y ==> #[trigger] rows@[j]@[i]
                == stripe_colour(colours@, if vertical { i } else { j }),
        decreases SIZE - y,
    {
        let mut row: Vec<Rgb> = Vec::new();
        let mut x: u32 = 0;
        while x < SIZE
            invariant
                colours@.len() > 0,
                y < SIZE,
                x <= SIZE,
                row@.len() == x,
                forall|i: int| 0 <= i < x ==> #[trigger] row@[i]
                    == stripe_colour(colours@, if vertical { i } else { y as int }),
            decreases SIZE - x,
        {
            let axis = if vertical { x } else { y };
            let idx = ((axis * STRIPES / SIZE) as usize) % colours.len();
            row.push(colours[idx]);
            x = x + 1;
        }
        rows.push(row);
        y = y + 1;
    }
    Canvas { rows }
}

/// The band colour of row `y`: one equal-height band per colour.
pub open spec fn band_colour(colours: Seq<Rgb>, y: int) -> Rgb {
    let idx = y * (colours.len() as int) / (SIZE as int);
    colours[if idx < colours.len() - 1 { idx } else { colours.len() - 1 }]
}

/// One equal-height horizontal band per colour.
pub fn bands(colours: &[Rgb]) -> (c: Canvas)
    requires
        0 < colours@.len(),
        47 * colours@.len() <= u32::MAX,
    ensures
        is_square(c),
        forall|x: int, y: int| 0 <= x < SIZE && 0 <= y < SIZE ==> #[trigger] pixel(c, x, y)
            == band_colour(colours@, y),
{
    let n = colours.len() as u32;
    let mut rows: Vec<Vec<Rgb>> = Vec::new();
    let mut y: u32 = 0;
    while y < SIZE
        invariant
            0 < colours@.len(),
            47 * colours@.len() <= u32::MAX,
            n == colours@.len(),
            y <= SIZE,
            rows@.len() == y,
            forall|j: int| 0 <= j < y ==> (#[trigger] rows@[j])@.len() == SIZE,
            forall|i: int, j: int| 0 <= i < SIZE && 0 <= j < y ==> #[trigger] rows@[j]@[i]
                == band_colour(colours@, j),
        decreases SIZE - y,
    {
        assert(y * n <= 47 * n) by (nonlinear_arith)
            requires
                y < 48,
        ;
        let idx = (y * n / SIZE) as usize;
        let last = colours.len() - 1;
        let c = colours[if idx < last { idx } else { last }];
        let mut row: Vec<Rgb> = Vec::new();
        let mut x: u32 = 0;
        while x < SIZE
            invariant
                x <= SIZE,
                row@.len() == x,
                forall|i: int| 0 <= i < x ==> #[trigger] row@[i] == c,
            decreases SIZE - x,
        {
            row.push(c);
            x = x + 1;
        }
        rows.push(row);
        y = y + 1;
    }
    Canvas { rows }
}

/// The length in bytes of the longest of `rows` from index `i` on.
pub open spec fn widest_from(rows: Seq<&str>, i: int) -> int
    decreases rows.len() - i,
{
    if i < 0 || i >= rows.len() {
        0
    } else {
        let rest = widest_from(rows, i + 1);
        let w = rows[i].spec_bytes().len() as int;
        if w >= rest { w } else { rest }
    }
}

/// The colour of a bitmap pixel: the bitmap is scaled over the tile by
/// nearest neighbour; a space or a full stop (or nothing, past the end of a
/// short row) is background, any other character foreground.
pub open spec fn bitmap_colour(bg: Rgb, fg: Rgb, rows: Seq<&str>, x: int, y: int) -> Rgb {
    let rh = rows.len() as int;
    let rw = widest_from(rows, 0);
    if rh == 0 || rw == 0 {
        bg
    } else {
        let sy = y * rh / (SIZE as int);
        let row = rows[if sy < rh - 1 { sy } else { rh - 1 }].spec_bytes();
        let sx = x * rw / (SIZE as int);
        if sx < row.len() && row[sx] != 32u8 && row[sx] != 46u8 { fg } else { bg }
    }
}

/// Scales a character bitmap (`' '`/`'.'` = background, anything else =
/// foreground) over a solid background tile.
pub fn bitmap(bg: Rgb, fg: Rgb, rows: &[&str]) -> (c: Canvas)
    requires
        47 * rows@.len() <= u32::MAX,
        forall|i: int| 0 <= i < rows@.len() ==> 47 * (#[trigger] rows@[i]).spec_bytes().len() <= u32::MAX,
    ensures
        is_square(c),
        forall|x: int, y: int| 0 <= x < SIZE && 0 <= y < SIZE ==> #[trigger] pixel(c, x, y)
            == bitmap_colour(bg, fg, rows@, x, y),
{
    let rh = rows.len();
    let mut rw: usize = 0;
    let mut k: usize = rh;
    while k > 0
        invariant
            k <= rh,
            rh == rows@.len(),
            rw == widest_from(rows@, k as int),
            forall|i: int| 0 <= i < rows@.len() ==> 47 * (#[trigger] rows@[i]).spec_bytes().len() <= u32::MAX,
            47 * rw <= u32::MAX,
        decreases k,
    {
        k = k - 1;
        let w = rows[k].len();
        if w >= rw {
            rw = w;
        }
    }
    if rh == 0 || rw == 0 {
        let c = fill(bg);
        assert forall|x: int, y: int| 0 <= x < SIZE && 0 <= y < SIZE implies #[trigger] pixel(c, x, y)
            == bitmap_colour(bg, fg, rows@, x, y) by {
            assert(pixel(c, x, y) == bg);
        }
        return c;
    }
    let rh32 = rh as u32;
    let rw32 = rw as u32;
    let mut out: Vec<Vec<Rgb>> = Vec::new();
    let mut y: u32 = 0;
    while y < SIZE
        invariant
            0 < rh == rows@.len(),
            47 * rh <= u32::MAX,
            0 < rw == widest_from(rows@, 0),
            47 * rw <= u32::MAX,
            rh32 == rh,
            rw32 == rw,
            y <= SIZE,
            out@.len() == y,
            forall|j: int| 0 <= j < y ==> (#[trigger] out@[j])@.len() == SIZE,
            forall|i: int, j: int| 0 <= i < SIZE && 0 <= j < y ==> #[trigger] out@[j]@[i]
                == bitmap_colour(bg, fg, rows@, i, j),
        decreases SIZE - y,
    {
        assert(y * rh32 <= 47 * rh32) by (nonlinear_arith)
            requires
                y < 48,
        ;
        let sy = (y * rh32 / SIZE) as usize;
        let line = rows[if sy < rh - 1 { sy } else { rh - 1 }].as_bytes();
        let mut row: Vec<Rgb> = Vec::new();
        let mut x: u32 = 0;
        while x < SIZE
            invariant
                0 < rh == rows@.len(),
                47 * rh <= u32::MAX,
                0 < rw == widest_from(rows@, 0),
                47 * rw <= u32::MAX,
                rh32 == rh,
                rw32 == rw,
                y < SIZE,
                sy == y * rh / (SIZE as int),
                line@ == rows@[if sy < rh - 1 { sy as int } else { rh - 1 }].spec_bytes(),
                x <= SIZE,
                row@.len() == x,
                forall|i: int| 0 <= i < x ==> #[trigger] row@[i] == bitmap_colour(bg, fg, rows@, i, y as int),
            decreases SIZE - x,
        {
            assert(x * rw32 <= 47 * rw32) by (nonlinear_arith)
                requires
                    x < 48,
            ;
            let sx = (x * rw32 / SIZE) as usize;
            let ch: u8 = if sx < line.len() { line[sx] } else { 32u8 };
            if ch != 32u8 && ch != 46u8 {
                row.push(fg);
            } else {
                row.push(bg);
            }
            x = x + 1;
        }
        out.push(row);
        y = y + 1;
    }
    Canvas { rows: out }
}

pub const LETTER_C: [&'static str; 16] = [
    "................",
    "....XXXXXX......",
    "...XXXXXXXX.....",
    "..XXX....XXX....",
    "..XXX.....XX....",
    "..XXX...........",
    "..XXX...........",
    "..XXX...........",
    "..XXX...........",
    "..XXX...........",
    "..XXX.....XX....",
    "..XXX....XXX....",
    "...XXXXXXXX.....",
    "....XXXXXX......",
    "................",
    "................",
];

pub const LETTER_G: [&'static str; 16] = [
    "................",
    "....XXXXXX......",
    "...XXXXXXXX.....",
    "..XXX....XXX....",
    "..XXX.....XX....",
    "..XXX...........",
    "..XXX...XXXX....",
    "..XXX...XXXX....",
    "..XXX......XX...",
    "..XXX......XX...",
    "..XXX.....XXX...",
    "...XXX...XXX....",
    "...XXXXXXXX.....",
    "....XXXXXX......",
    "................",
    "................",
];

pub const ANCHOR: [&'static str; 16] = [
    ".......XX.......",
    "......X..X......",
    "......X..X......",
    "......XXXX......",
    ".......XX.......",
    "....XXXXXXXX....",
    ".......XX.......",
    ".......XX.......",
    ".X.....XX.....X.",
    ".XX....XX....XX.",
    "..XX...XX...XX..",
    "...XX..XX..XX...",
    "....XXXXXXXX....",
    "......XXXX......",
    ".......XX.......",
    "................",
];

/// The bitmap of a monogram letter.
pub fn glyph_rows(g: Glyph) -> (rows: &'static [&'static str])
    ensures
        rows@ == match g {
            Glyph::C => LETTER_C@,
            Glyph::G => LETTER_G@,
        },
{
    match g {
        Glyph::C => &LETTER_C,
        Glyph::G => &LETTER_G,
    }
}

/// The anchor bitmap of the Fremantle emblem.
pub fn anchor_rows() -> (rows: &'static [&'static str])
    ensures
        rows@ == ANCHOR@,
{
    &ANCHOR
}

} // verus!
