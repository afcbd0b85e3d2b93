//! The high-resolution frame buffer: rows of 128 pixels, each packed into
//! one `u128`.

use vstd::prelude::*;
use crate::display::{span_bit, sprite_width};
use crate::raster::PackedRow;

verus! {

/// Pixel `x` of a packed row; column 0 is the most significant bit.
pub open spec fn pixel(row: u128, x: int) -> bool {
    0 <= x < 128 && (row >> ((127 - x) as u128)) & 1 == 1
}

/// The row that holds the `width` low bits of `word` from column `x0` on,
/// cut off at the right edge.
spec fn placed(word: u16, wide: bool, x0: u8) -> u128 {
    if wide {
        if x0 > 112 {
            (word as u128) >> ((x0 - 112) as u128)
        } else {
            (word as u128) << ((112 - x0) as u128)
        }
    } else {
        if x0 > 120 {
            (word as u128) >> ((x0 - 120) as u128)
        } else {
            (word as u128) << ((120 - x0) as u128)
        }
    }
}

proof fn bits_of_shifts(row: u128, c: u128)
    by (bit_vector)
    requires
        c < 128,
    ensures
        ((0u128 >> (127 - c) as u128) & 1 == 1) == false,
        (((row >> 4u128) >> (127 - c) as u128) & 1 == 1) == (c >= 4 && ((row >> (127 - (c - 4)
            as u128) as u128) & 1 == 1)),
        (((row << 4u128) >> (127 - c) as u128) & 1 == 1) == (c + 4 < 128 && ((row >> (127 - (c + 4)
            as u128) as u128) & 1 == 1)),
{
}

proof fn bits_of_xor_and(a: u128, b: u128, k: u128)
    by (bit_vector)
    requires
        k < 128,
    ensures
        (((a ^ b) >> k) & 1 == 1) == (((a >> k) & 1 == 1) != ((b >> k) & 1 == 1)),
        (((a & b) >> k) & 1 == 1) == (((a >> k) & 1 == 1) && ((b >> k) & 1 == 1)),
        ((a >> k) & 1 == 1) ==> a != 0,
{
}

proof fn bits_of_narrow(word: u16, x0: u8, c: u128)
    by (bit_vector)
    requires
        c < 128,
        x0 < 128,
        word < 256,
    ensures
        (((if x0 > 120 {
            (word as u128) >> ((x0 - 120) as u128)
        } else {
            (word as u128) << ((120 - x0) as u128)
        }) >> (127 - c) as u128) & 1 == 1) == (x0 as u128 <= c && c < x0 as u128 + 8 && ((word >> ((7
            - (c - x0 as u128)) as u16)) & 1 == 1)),
{
}

proof fn bits_of_wide(word: u16, x0: u8, c: u128)
    by (bit_vector)
    requires
        c < 128,
        x0 < 128,
    ensures
        (((if x0 > 112 {
            (word as u128) >> ((x0 - 112) as u128)
        } else {
            (word as u128) << ((112 - x0) as u128)
        }) >> (127 - c) as u128) & 1 == 1) == (x0 as u128 <= c && c < x0 as u128 + 16 && ((word >> ((15
            - (c - x0 as u128)) as u16)) & 1 == 1)),
{
}

proof fn lowest_bit_or_rest(a: u128, k: u128)
    by (bit_vector)
    requires
        k < 128,
        (a >> k) != 0,
    ensures
        ((a >> k) & 1 == 1) || (k < 127 && (a >> ((k + 1) as u128)) != 0),
{
}

/// A row that is not zero from bit `k` up has a set pixel.
proof fn lemma_some_pixel_from(a: u128, k: u128)
    requires
        k < 128,
        (a >> k) != 0,
    ensures
        exists|x: int| 0 <= x < 128 && pixel(a, x),
    decreases 128 - k,
{
    lowest_bit_or_rest(a, k);
    if (a >> k) & 1 == 1 {
        assert(pixel(a, 127 - k));
    } else {
        lemma_some_pixel_from(a, (k + 1) as u128);
    }
}

/// Two rows share a set pixel exactly if their bitwise AND is not zero.
proof fn lemma_rows_meet(a: u128, b: u128)
    ensures
        ((a & b) != 0) == (exists|x: int| 0 <= x < 128 && pixel(a, x) && pixel(b, x)),
{
    if (a & b) != 0 {
        assert(((a & b) >> 0u128) != 0) by (bit_vector)
            requires
                (a & b) != 0,
        ;
        lemma_some_pixel_from(a & b, 0);
        let x = choose|x: int| 0 <= x < 128 && pixel(a & b, x);
        bits_of_xor_and(a, b, (127 - x) as u128);
        assert(pixel(a, x) && pixel(b, x));
    }
    if exists|x: int| 0 <= x < 128 && pixel(a, x) && pixel(b, x) {
        let x = choose|x: int| 0 <= x < 128 && pixel(a, x) && pixel(b, x);
        bits_of_xor_and(a, b, (127 - x) as u128);
        bits_of_xor_and(a & b, 0, (127 - x) as u128);
    }
}

/// The pixels of the XOR of two rows are the pixels in which they differ.
proof fn lemma_rows_xor(a: u128, b: u128)
    ensures
        forall|x: int| 0 <= x < 128 ==> #[trigger] pixel(a ^ b, x) == (pixel(a, x) != pixel(b, x)),
{
    assert forall|x: int| 0 <= x < 128 implies #[trigger] pixel(a ^ b, x) == (pixel(a, x) != pixel(
        b,
        x,
    )) by {
        bits_of_xor_and(a, b, (127 - x) as u128);
    }
}

impl PackedRow for u128 {
    open spec fn width() -> int {
        128
    }

    open spec fn pixel(self, x: int) -> bool {
        pixel(self, x)
    }

    proof fn lemma_width() {
    }

    fn columns() -> (columns: usize) {
        128
    }

    fn blank() -> (row: u128) {
        proof {
            assert forall|x: int| 0 <= x < 128 implies !pixel(0, x) by {
                bits_of_shifts(0, x as u128);
            }
        }
        0
    }

    fn scrolled_right(self) -> (row: u128) {
        proof {
            assert forall|x: int| 0 <= x < 128 implies #[trigger] pixel(self >> 4, x) == (x >= 4
                && pixel(self, x - 4)) by {
                bits_of_shifts(self, x as u128);
            }
        }
        self >> 4
    }

    fn scrolled_left(self) -> (row: u128) {
        proof {
            assert forall|x: int| 0 <= x < 128 implies #[trigger] pixel(self << 4, x) == (x + 4
                < 128 && pixel(self, x + 4)) by {
                bits_of_shifts(self, x as u128);
            }
        }
        self << 4
    }

    fn place(word: u16, wide: bool, x0: u8) -> (row: u128) {
        let row: u128 = if wide {
            if x0 > 112 {
                (word as u128) >> (x0 - 112)
            } else {
                (word as u128) << (112 - x0)
            }
        } else {
            if x0 > 120 {
                (word as u128) >> (x0 - 120)
            } else {
                (word as u128) << (120 - x0)
            }
        };
        proof {
            assert(row == placed(word, wide, x0));
            assert forall|x: int| 0 <= x < 128 implies #[trigger] pixel(row, x) == span_bit(
                word,
                sprite_width(wide),
                x - x0,
            ) by {
                if wide {
                    bits_of_wide(word, x0, x as u128);
                } else {
                    bits_of_narrow(word, x0, x as u128);
                }
            }
        }
        row
    }

    fn blend(self, mask: u128) -> (result: (u128, bool)) {
        let met: bool = (self & mask) != 0;
        proof {
            lemma_rows_xor(self, mask);
            lemma_rows_meet(self, mask);
            if met {
                let x = choose|x: int| 0 <= x < 128 && pixel(self, x) && pixel(mask, x);
                assert(0 <= x < Self::width() && self.pixel(x) && mask.pixel(x));
            }
            if exists|x: int| 0 <= x < Self::width() && self.pixel(x) && mask.pixel(x) {
                let x = choose|x: int| 0 <= x < Self::width() && self.pixel(x) && mask.pixel(x);
                assert(0 <= x < 128 && pixel(self, x) && pixel(mask, x));
            }
        }
        (self ^ mask, met)
    }

    fn is_lit(self, x: usize) -> (lit: bool) {
        (self >> (127 - x)) & 1 == 1
    }
}

} // verus!
