//! What the display operations mean, stated pixel by pixel.

use vstd::prelude::*;
use crate::model::Grid;

verus! {

/// Colour of a set pixel in a rendered frame: opaque white.
pub const PIXEL_ON: u32 = 0xFFFF_FFFF;

/// Colour of a clear pixel in a rendered frame.
pub const PIXEL_OFF: u32 = 0;

/// `grid` moved `by` columns to the right: what leaves on the right is lost,
/// the columns that open up on the left are clear.
pub open spec fn scrolled_right(grid: Grid, by: int) -> Grid {
    Seq::new(
        grid.len(),
        |y: int| Seq::new(grid[y].len(), |x: int| x >= by && grid[y][x - by]),
    )
}

/// `grid` moved `by` columns to the left: what leaves on the left is lost,
/// the columns that open up on the right are clear.
pub open spec fn scrolled_left(grid: Grid, by: int) -> Grid {
    Seq::new(
        grid.len(),
        |y: int| Seq::new(grid[y].len(), |x: int| x + by < grid[y].len() && grid[y][x + by]),
    )
}

/// `grid` moved `by` rows down: what leaves at the bottom is lost, the rows
/// that open up at the top are clear.
pub open spec fn scrolled_down(grid: Grid, by: int) -> Grid {
    Seq::new(
        grid.len(),
        |y: int| Seq::new(grid[y].len(), |x: int| y >= by && grid[y - by][x]),
    )
}

/// Bit `i` of the `width` low bits of `word`, counted from the most
/// significant of them: the pixel in column `i` of a sprite row.
pub open spec fn span_bit(word: u16, width: int, i: int) -> bool {
    0 <= i < width && (word >> ((width - 1 - i) as u16)) & 1 == 1
}

/// Width in pixels of a sprite: 16 for a wide one, 8 otherwise.
pub open spec fn sprite_width(wide: bool) -> int {
    if wide {
        16
    } else {
        8
    }
}

/// The bits of row `row` of the sprite that starts at address `base`: one
/// byte, or for a wide sprite two bytes of which the first holds the left
/// half. Addresses wrap at the end of memory.
pub open spec fn sprite_word(memory: Seq<u8>, base: u16, wide: bool, row: int) -> u16 {
    if wide {
        (memory[(base + 2 * row) % 4096] * 256 + memory[(base + 2 * row + 1) % 4096]) as u16
    } else {
        memory[(base + row) % 4096] as u16
    }
}

/// The sprite of `rows` rows that starts at address `base`, as a picture.
pub open spec fn sprite_at(memory: Seq<u8>, base: u16, wide: bool, rows: int) -> Grid {
    Seq::new(
        rows as nat,
        |dy: int|
            Seq::new(
                sprite_width(wide) as nat,
                |dx: int| span_bit(sprite_word(memory, base, wide, dy), sprite_width(wide), dx),
            ),
    )
}

/// Whether `sprite`, placed with its top left corner at `(x0, y0)`, has a set
/// pixel at display position `(x, y)`.
pub open spec fn sprite_covers(sprite: Grid, x0: int, y0: int, x: int, y: int) -> bool {
    &&& 0 <= y - y0 < sprite.len()
    &&& 0 <= x - x0 < sprite[y - y0].len()
    &&& sprite[y - y0][x - x0]
}

/// `grid` after `sprite` was drawn at `(x0, y0)`: every pixel that the sprite
/// covers is flipped. A sprite that reaches past the right or bottom edge is
/// cut off there; nothing wraps around.
pub open spec fn drawn(grid: Grid, sprite: Grid, x0: int, y0: int) -> Grid {
    Seq::new(
        grid.len(),
        |y: int|
            Seq::new(grid[y].len(), |x: int| grid[y][x] != sprite_covers(sprite, x0, y0, x, y)),
    )
}

/// Whether `(x, y)` is a set pixel of `grid` that `sprite` at `(x0, y0)` covers.
pub open spec fn overlap_at(grid: Grid, sprite: Grid, x0: int, y0: int, x: int, y: int) -> bool {
    &&& 0 <= y < grid.len()
    &&& 0 <= x < grid[y].len()
    &&& grid[y][x]
    &&& sprite_covers(sprite, x0, y0, x, y)
}

/// Whether drawing `sprite` at `(x0, y0)` erases at least one set pixel.
pub open spec fn collides(grid: Grid, sprite: Grid, x0: int, y0: int) -> bool {
    exists|x: int, y: int| #[trigger] overlap_at(grid, sprite, x0, y0, x, y)
}

/// The frame that shows `grid`, row by row from the top, one colour per pixel.
pub open spec fn rendered(grid: Grid, width: int) -> Seq<u32> {
    Seq::new(
        (grid.len() * width) as nat,
        |i: int|
            if grid[i / width][i % width] {
                PIXEL_ON
            } else {
                PIXEL_OFF
            },
    )
}

} // verus!
