//! Bit-packed frame buffers: a picture stored as one machine word per row,
//! with the leftmost pixel in the most significant bit. The operations are
//! written once, for any row width, and stated pixel by pixel.

use vstd::prelude::*;
use crate::display::{
    collides, drawn, overlap_at, rendered, scrolled_down, scrolled_left, scrolled_right, span_bit,
    sprite_at, sprite_covers, sprite_width, sprite_word, PIXEL_OFF, PIXEL_ON,
};
use crate::model::{blank_grid, Grid};

verus! {

/// One row of pixels packed into a machine word.
pub trait PackedRow: Copy + Sized {
    /// Number of pixels in a row.
    spec fn width() -> int;

    /// Pixel `x` of the row; column 0 is the leftmost.
    spec fn pixel(self, x: int) -> bool;

    /// The width is at least that of a wide sprite and fits a coordinate.
    proof fn lemma_width()
        ensures
            16 <= Self::width() <= 256,
    ;

    /// Number of pixels in a row.
    fn columns() -> (columns: usize)
        ensures
            columns == Self::width(),
    ;

    /// The row with no pixel set.
    fn blank() -> (row: Self)
        ensures
            forall|x: int| 0 <= x < Self::width() ==> !#[trigger] row.pixel(x),
    ;

    /// The row moved four columns to the right.
    fn scrolled_right(self) -> (row: Self)
        ensures
            forall|x: int|
                0 <= x < Self::width() ==> #[trigger] row.pixel(x) == (x >= 4 && self.pixel(x - 4)),
    ;

    /// The row moved four columns to the left.
    fn scrolled_left(self) -> (row: Self)
        ensures
            forall|x: int|
                0 <= x < Self::width() ==> #[trigger] row.pixel(x) == (x + 4 < Self::width()
                    && self.pixel(x + 4)),
    ;

    /// The row that shows one row of sprite data from column `x0` on; what
    /// would lie past the right edge is cut off.
    fn place(word: u16, wide: bool, x0: u8) -> (row: Self)
        requires
            x0 < Self::width(),
            !wide ==> word < 256,
        ensures
            forall|x: int|
                0 <= x < Self::width() ==> #[trigger] row.pixel(x) == span_bit(
                    word,
                    sprite_width(wide),
                    x - x0,
                ),
    ;

    /// The row with the pixels of `mask` flipped, and whether a set pixel
    /// was among them.
    fn blend(self, mask: Self) -> (result: (Self, bool))
        ensures
            forall|x: int|
                0 <= x < Self::width() ==> #[trigger] result.0.pixel(x) == (self.pixel(x)
                    != mask.pixel(x)),
            result.1 == (exists|x: int| 0 <= x < Self::width() && self.pixel(x) && mask.pixel(x)),
    ;

    /// Whether pixel `x` is set.
    fn is_lit(self, x: usize) -> (lit: bool)
        requires
            x < Self::width(),
        ensures
            lit == self.pixel(x as int),
    ;
}

/// Whether a set pixel of `grid` above row `limit` is covered by the sprite.
pub open spec fn collides_above(grid: Grid, sprite: Grid, x0: int, y0: int, limit: int) -> bool {
    exists|x: int, y: int| y < limit && #[trigger] overlap_at(grid, sprite, x0, y0, x, y)
}

/// Reads one row of sprite data.
pub fn read_sprite_word(memory: &[u8; 4096], base: u16, wide: bool, row: usize) -> (word: u16)
    requires
        row < 32,
    ensures
        word == sprite_word(memory@, base, wide, row as int),
        !wide ==> word < 256,
{
    if wide {
        let left: u8 = memory[(base as usize + 2 * row) % 4096];
        let right: u8 = memory[(base as usize + 2 * row + 1) % 4096];
        (left as u16) * 256 + (right as u16)
    } else {
        memory[(base as usize + row) % 4096] as u16
    }
}

/// The picture that the packed rows hold.
pub open spec fn unpack<R: PackedRow>(rows: Seq<R>) -> Grid {
    Seq::new(rows.len(), |y: int| Seq::new(R::width() as nat, |x: int| rows[y].pixel(x)))
}

/// Clears every pixel.
pub fn clear<R: PackedRow, const N: usize>(rows: &mut [R; N])
    ensures
        unpack(final(rows)@) == blank_grid(R::width(), N as int),
{
    let blank: R = R::blank();
    let mut y: usize = 0;
    while y < N
        invariant
            y <= N,
            forall|x: int| 0 <= x < R::width() ==> !#[trigger] blank.pixel(x),
            forall|j: int| 0 <= j < y ==> rows@[j] == blank,
        decreases N - y,
    {
        rows[y] = blank;
        y += 1;
    }
    proof {
        R::lemma_width();
        assert(unpack(rows@) =~~= blank_grid(R::width(), N as int));
    }
}

/// Moves the picture four columns to the right.
pub fn scroll_right<R: PackedRow, const N: usize>(rows: &mut [R; N])
    ensures
        unpack(final(rows)@) == scrolled_right(unpack(old(rows)@), 4),
{
    let mut y: usize = 0;
    while y < N
        invariant
            y <= N,
            forall|j: int, x: int|
                0 <= j < y && 0 <= x < R::width() ==> #[trigger] rows@[j].pixel(x) == (x >= 4
                    && old(rows)@[j].pixel(x - 4)),
            forall|j: int| y <= j < N ==> rows@[j] == old(rows)@[j],
        decreases N - y,
    {
        rows[y] = rows[y].scrolled_right();
        y += 1;
    }
    proof {
        R::lemma_width();
        assert(unpack(rows@) =~~= scrolled_right(unpack(old(rows)@), 4));
    }
}

/// Moves the picture four columns to the left.
pub fn scroll_left<R: PackedRow, const N: usize>(rows: &mut [R; N])
    ensures
        unpack(final(rows)@) == scrolled_left(unpack(old(rows)@), 4),
{
    let mut y: usize = 0;
    while y < N
        invariant
            y <= N,
            forall|j: int, x: int|
                0 <= j < y && 0 <= x < R::width() ==> #[trigger] rows@[j].pixel(x) == (x + 4
                    < R::width() && old(rows)@[j].pixel(x + 4)),
            forall|j: int| y <= j < N ==> rows@[j] == old(rows)@[j],
        decreases N - y,
    {
        rows[y] = rows[y].scrolled_left();
        y += 1;
    }
    proof {
        R::lemma_width();
        assert(unpack(rows@) =~~= scrolled_left(unpack(old(rows)@), 4));
    }
}

/// Moves the picture `by` rows down.
pub fn scroll_down<R: PackedRow, const N: usize>(rows: &mut [R; N], by: usize)
    ensures
        unpack(final(rows)@) == scrolled_down(unpack(old(rows)@), by as int),
{
    let blank: R = R::blank();
    let mut y: usize = N;
    while y > by
        invariant
            y <= N,
            by <= y || by > N,
            forall|j: int| y <= j < N ==> rows@[j] == old(rows)@[j - by],
            forall|j: int| 0 <= j < y ==> rows@[j] == old(rows)@[j],
        decreases y,
    {
        y -= 1;
        rows[y] = rows[y - by];
    }
    let mut t: usize = 0;
    while t < by && t < N
        invariant
            t <= N,
            t <= by,
            forall|x: int| 0 <= x < R::width() ==> !#[trigger] blank.pixel(x),
            forall|j: int| by <= j < N ==> rows@[j] == old(rows)@[j - by],
            forall|j: int| 0 <= j < t ==> rows@[j] == blank,
        decreases N - t,
    {
        rows[t] = blank;
        t += 1;
    }
    proof {
        R::lemma_width();
        assert(unpack(rows@) =~~= scrolled_down(unpack(old(rows)@), by as int));
    }
}

/// Draws the sprite of `height` rows at address `base` with its top left
/// corner at `(x0, y0)` and reports whether a set pixel was erased.
pub fn draw<R: PackedRow, const N: usize>(
    rows: &mut [R; N],
    memory: &[u8; 4096],
    base: u16,
    wide: bool,
    height: usize,
    x0: u8,
    y0: u8,
) -> (hit: bool)
    requires
        x0 < R::width(),
        y0 < N,
        height <= 32,
    ensures
        unpack(final(rows)@) == drawn(
            unpack(old(rows)@),
            sprite_at(memory@, base, wide, height as int),
            x0 as int,
            y0 as int,
        ),
        hit == collides(
            unpack(old(rows)@),
            sprite_at(memory@, base, wide, height as int),
            x0 as int,
            y0 as int,
        ),
{
    let ghost before = unpack(old(rows)@);
    let ghost sprite = sprite_at(memory@, base, wide, height as int);
    let mut hit: bool = false;
    let mut r: usize = 0;
    while r < height && y0 as usize + r < N
        invariant
            r <= height <= 32,
            x0 < R::width(),
            y0 < N,
            y0 + r <= N,
            before == unpack(old(rows)@),
            sprite == sprite_at(memory@, base, wide, height as int),
            forall|j: int| 0 <= j < N && !(y0 <= j < y0 + r) ==> rows@[j] == old(rows)@[j],
            forall|j: int, x: int|
                y0 <= j < y0 + r && 0 <= x < R::width() ==> #[trigger] rows@[j].pixel(x) == (
                before[j][x] != sprite_covers(sprite, x0 as int, y0 as int, x, j)),
            hit == collides_above(before, sprite, x0 as int, y0 as int, y0 + r),
        decreases height - r,
    {
        let y: usize = y0 as usize + r;
        let word: u16 = read_sprite_word(memory, base, wide, r);
        let mask: R = R::place(word, wide, x0);
        let row: R = rows[y];
        let (blended, met) = row.blend(mask);
        proof {
            assert forall|x: int| 0 <= x < R::width() implies #[trigger] mask.pixel(x)
                == sprite_covers(sprite, x0 as int, y0 as int, x, y as int) by {}
            if met {
                let x = choose|x: int| 0 <= x < R::width() && row.pixel(x) && mask.pixel(x);
                assert(overlap_at(before, sprite, x0 as int, y0 as int, x, y as int));
            }
            if collides_above(before, sprite, x0 as int, y0 as int, y + 1) {
                let (x, j) = choose|x: int, j: int|
                    j < y + 1 && #[trigger] overlap_at(before, sprite, x0 as int, y0 as int, x, j);
                if j == y {
                    assert(row.pixel(x) && mask.pixel(x));
                }
            }
            assert(collides_above(before, sprite, x0 as int, y0 as int, y + 1) == (hit || met));
        }
        if met {
            hit = true;
        }
        rows[y] = blended;
        r += 1;
    }
    proof {
        let after = drawn(before, sprite, x0 as int, y0 as int);
        assert forall|j: int, x: int| 0 <= j < N && 0 <= x < R::width() implies rows@[j].pixel(x)
            == after[j][x] by {
            if !(y0 <= j < y0 + r) {
                assert(!sprite_covers(sprite, x0 as int, y0 as int, x, j));
            }
        }
        assert(unpack(rows@) =~~= after);
        if collides(before, sprite, x0 as int, y0 as int) {
            let (x, j) = choose|x: int, j: int| #[trigger]
                overlap_at(before, sprite, x0 as int, y0 as int, x, j);
            assert(j < y0 + r);
        }
    }
    hit
}

/// Whether entry `k` of `frame` shows the pixel of `rows` that belongs there.
pub open spec fn shows<R: PackedRow>(frame: Seq<u32>, rows: Seq<R>, k: int) -> bool {
    let y = k / R::width();
    let x = k % R::width();
    0 <= y < rows.len() && frame[k] == if rows[y].pixel(x) {
        PIXEL_ON
    } else {
        PIXEL_OFF
    }
}

/// Writes the picture to `frame`, one colour per pixel, row by row from
/// the top; what lies behind the picture in `frame` stays.
pub fn render<R: PackedRow, const N: usize>(rows: &[R; N], frame: &mut [u32])
    requires
        old(frame)@.len() >= N * R::width(),
    ensures
        final(frame)@.len() == old(frame)@.len(),
        final(frame)@.subrange(0, N * R::width()) == rendered(unpack(rows@), R::width()),
        forall|i: int|
            N * R::width() <= i < old(frame)@.len() ==> final(frame)@[i] == old(frame)@[i],
{
    let width: usize = R::columns();
    let length: usize = frame.len();
    proof {
        R::lemma_width();
        assert(N * width <= length);
    }
    let total: usize = N * width;
    let mut i: usize = 0;
    while i < total
        invariant
            i <= total,
            total == N * width,
            width == R::width(),
            16 <= width <= 256,
            total <= old(frame)@.len(),
            frame@.len() == old(frame)@.len(),
            forall|k: int| 0 <= k < i ==> #[trigger] shows(frame@, rows@, k),
            forall|k: int| total <= k < old(frame)@.len() ==> frame@[k] == old(frame)@[k],
        decreases total - i,
    {
        proof {
            assert(width * N == N * width) by (nonlinear_arith);
            vstd::arithmetic::div_mod::lemma_multiply_divide_lt(i as int, width as int, N as int);
        }
        let lit: bool = rows[i / width].is_lit(i % width);
        let ghost before = frame@;
        frame[i] = if lit {
            PIXEL_ON
        } else {
            PIXEL_OFF
        };
        proof {
            assert forall|k: int| 0 <= k < i + 1 implies #[trigger] shows(frame@, rows@, k) by {
                if k < i {
                    assert(shows(before, rows@, k));
                }
            }
        }
        i += 1;
    }
    proof {
        assert forall|k: int| 0 <= k < total implies #[trigger] frame@.subrange(0, total as int)[k]
            == rendered(unpack(rows@), R::width())[k] by {
            assert(shows(frame@, rows@, k));
        }
        assert(frame@.subrange(0, N * R::width()) =~= rendered(unpack(rows@), R::width()));
    }
}

} // verus!
