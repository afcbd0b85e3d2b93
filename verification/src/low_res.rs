//! The low-resolution frame buffer: rows of 64 pixels, each packed into one
//! `u64`.

use vstd::prelude::*;
use crate::display::{span_bit, sprite_width};
use crate::raster::PackedRow;

verus! {

/// Pixel `x` of a packed row; column 0 is the most significant bit.
pub open spec fn pixel(row: u64, x: int) -> bool {
    0 <= x < 64 && (row >> ((63 - x) as u64)) & 1 == 1
}

/// The row that holds the `width` low bits of `word` from column `x0` on,
/// cut off at the right edge.
spec fn placed(word: u16, wide: bool, x0: u8) -> u64 {
    if wide {
        if x0 > 48 {
            (word as u64) >> ((x0 - 48) as u64)
        } else {
            (word as u64) << ((48 - x0) as u64)
        }
    } else {
        if x0 > 56 {
            (word as u64) >> ((x0 - 56) as u64)
        } else {
            (word as u64) << ((56 - x0) as u64)
        }
    }
}

proof fn bits_of_shifts(row: u64, c: u64)
    by (bit_vector)
    requires
        c < 64,
    ensures
        ((0u64 >> (63 - c) as u64) & 1 == 1) == false,
        (((row >> 4u64) >> (63 - c) as u64) & 1 == 1) == (c >= 4 && ((row >> (63 - (c - 4)
            as u64) as u64) & 1 == 1)),
        (((row << 4u64) >> (63 - c) as u64) & 1 == 1) == (c + 4 < 64 && ((row >> (63 - (c + 4)
            as u64) as u64) & 1 == 1)),
{
}

proof fn bits_of_xor_and(a: u64, b: u64, k: u64)
    by (bit_vector)
    requires
        k < 64,
    ensures
        (((a ^ b) >> k) & 1 == 1) == (((a >> k) & 1 == 1) != ((b >> k) & 1 == 1)),
        (((a & b) >> k) & 1 == 1) == (((a >> k) & 1 == 1) && ((b >> k) & 1 == 1)),
        ((a >> k) & 1 == 1) ==> a != 0,
{
}

proof fn bits_of_narrow(word: u16, x0: u8, c: u64)
    by (bit_vector)
    requires
        c < 64,
        x0 < 64,
        word < 256,
    ensures
        (((if x0 > 56 {
            (word as u64) >> ((x0 - 56) as u64)
        } else {
            (word as u64) << ((56 - x0) as u64)
        }) >> (63 - c) as u64) & 1 == 1) == (x0 as u64 <= c && c < x0 as u64 + 8 && ((word >> ((7
            - (c - x0 as u64)) as u16)) & 1 == 1)),
{
}

proof fn bits_of_wide(word: u16, x0: u8, c: u64)
    by (bit_vector)
    requires
        c < 64,
        x0 < 64,
    ensures
        (((if x0 > 48 {
            (word as u64) >> ((x0 - 48) as u64)
        } else {
            (word as u64) << ((48 - x0) as u64)
        }) >> (63 - c) as u64) & 1 == 1) == (x0 as u64 <= c && c < x0 as u64 + 16 && ((word >> ((15
            - (c - x0 as u64)) as u16)) & 1 == 1)),
{
}

proof fn lowest_bit_or_rest(a: u64, k: u64)
    by (bit_vector)
    requires
        k < 64,
        (a >> k) != 0,
    ensures
        ((a >> k) & 1 == 1) || (k < 63 && (a >> ((k + 1) as u64)) != 0),
{
}

/// A row that is not zero from bit `k` up has a set pixel.
proof fn lemma_some_pixel_from(a: u64, k: u64)
    requires
        k < 64,
        (a >> k) != 0,
    ensures
        exists|x: int| 0 <= x < 64 && pixel(a, x),
    decreases 64 - k,
{
    lowest_bit_or_rest(a, k);
    if (a >> k) & 1 == 1 {
        assert(pixel(a, 63 - k));
    } else {
        lemma_some_pixel_from(a, (k + 1) as u64);
    }
}

/// Two rows share a set pixel exactly if their bitwise AND is not zero.
proof fn lemma_rows_meet(a: u64, b: u64)
    ensures
        ((a & b) != 0) == (exists|x: int| 0 <= x < 64 && pixel(a, x) && pixel(b, x)),
{
    if (a & b) != 0 {
        assert(((a & b) >> 0u64) != 0) by (bit_vector)
            requires
                (a & b) != 0,
        ;
        lemma_some_pixel_from(a & b, 0);
        let x = choose|x: int| 0 <= x < 64 && pixel(a & b, x);
        bits_of_xor_and(a, b, (63 - x) as u64);
        assert(pixel(a, x) && pixel(b, x));
    }
    if exists|x: int| 0 <= x < 64 && pixel(a, x) && pixel(b, x) {
        let x = choose|x: int| 0 <= x < 64 && pixel(a, x) && pixel(b, x);
        bits_of_xor_and(a, b, (63 - x) as u64);
        bits_of_xor_and(a & b, 0, (63 - x) as u64);
    }
}

/// The pixels of the XOR of two rows are the pixels in which they differ.
proof fn lemma_rows_xor(a: u64, b: u64)
    ensures
        forall|x: int| 0 <= x < 64 ==> #[trigger] pixel(a ^ b, x) == (pixel(a, x) != pixel(b, x)),
{
    assert forall|x: int| 0 <= x < 64 implies #[trigger] pixel(a ^ b, x) == (pixel(a, x) != pixel(
        b,
        x,
    )) by {
        bits_of_xor_and(a, b, (63 - x) as u64);
    }
}

impl PackedRow for u64 {
    open spec fn width() -> int {
        64
    }

    open spec fn pixel(self, x: int) -> bool {
        pixel(self, x)
    }

    proof fn lemma_width() {
    }

    fn columns() -> (columns: usize) {
        64
    }

    fn blank() -> (row: u64) {
        proof {
            assert forall|x: int| 0 <= x < 64 implies !pixel(0, x) by {
                bits_of_shifts(0, x as u64);
            }
        }
        0
    }

    fn scrolled_right(self) -> (row: u64) {
        proof {
            assert forall|x: int| 0 <= x < 64 implies #[trigger] pixel(self >> 4, x) == (x >= 4
                && pixel(self, x - 4)) by {
                bits_of_shifts(self, x as u64);
            }
        }
        self >> 4
    }

    fn scrolled_left(self) -> (row: u64) {
        proof {
            assert forall|x: int| 0 <= x < 64 implies #[trigger] pixel(self << 4, x) == (x + 4
                < 64 && pixel(self, x + 4)) by {
                bits_of_shifts(self, x as u64);
            }
        }
        self << 4
    }

    fn place(word: u16, wide: bool, x0: u8) -> (row: u64) {
        let row: u64 = if wide {
            if x0 > 48 {
                (word as u64) >> (x0 - 48)
            } else {
                (word as u64) << (48 - x0)
            }
        } else {
            if x0 > 56 {
                (word as u64) >> (x0 - 56)
            } else {
                (word as u64) << (56 - x0)
            }
        };
        proof {
            assert(row == placed(word, wide, x0));
            assert forall|x: int| 0 <= x < 64 implies #[trigger] pixel(row, x) == span_bit(
                word,
                sprite_width(wide),
                x - x0,
            ) by {
                if wide {
                    bits_of_wide(word, x0, x as u64);
                } else {
                    bits_of_narrow(word, x0, x as u64);
                }
            }
        }
        row
    }

    fn blend(self, mask: u64) -> (result: (u64, bool)) {
        let met: bool = (self & mask) != 0;
        proof {
            lemma_rows_xor(self, mask);
            lemma_rows_meet(self, mask);
            if met {
                let x = choose|x: int| 0 <= x < 64 && pixel(self, x) && pixel(mask, x);
                assert(0 <= x < Self::width() && self.pixel(x) && mask.pixel(x));
            }
            if exists|x: int| 0 <= x < Self::width() && self.pixel(x) && mask.pixel(x) {
                let x = choose|x: int| 0 <= x < Self::width() && self.pixel(x) && mask.pixel(x);
                assert(0 <= x < 64 && pixel(self, x) && pixel(mask, x));
            }
        }
        (self ^ mask, met)
    }

    fn is_lit(self, x: usize) -> (lit: bool) {
        (self >> (63 - x)) & 1 == 1
    }
}

} // verus!
