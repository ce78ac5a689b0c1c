//! The placeholder payload renderer: fills every pixel of the surface
//! with a sliding two-channel gradient. The low byte of each packed
//! pixel carries `(column + x_offset) mod 256`, the next byte carries
//! `(row + y_offset) mod 256`, and the remaining two bytes stay zero.
//! It exists to prove the surface is correctly addressable, not as a
//! rendering algorithm.

use vstd::arithmetic::div_mod::{
    lemma_fundamental_div_mod_converse, lemma_mod_mod, lemma_mod_multiples_vanish,
};
use vstd::prelude::*;

use crate::surface::{PixelSurface, SurfaceModel};

verus! {

/// A value reduced modulo 256, as the byte the surface stores.
pub open spec fn wrap256(v: int) -> u8 {
    (v % 256) as u8
}

/// The byte the gradient fill leaves at flat buffer offset `i` of a
/// surface `width` pixels wide, for fill offsets `ox` and `oy`.
pub open spec fn gradient_byte(i: int, width: int, ox: int, oy: int) -> u8 {
    let row = i / (width * 4);
    let col = (i % (width * 4)) / 4;
    let channel = i % 4;
    if channel == 0 {
        wrap256(col + ox)
    } else if channel == 1 {
        wrap256(row + oy)
    } else {
        0u8
    }
}

/// The whole buffer contents the gradient fill produces.
pub open spec fn gradient_data(width: int, height: int, ox: int, oy: int) -> Seq<u8> {
    Seq::new((width * height * 4) as nat, |i: int| gradient_byte(i, width, ox, oy))
}

/// The surface model after a fill: the gradient data on a paintable
/// surface, and the surface untouched otherwise (a fill must tolerate
/// an empty backing block).
pub open spec fn filled(m: SurfaceModel, ox: int, oy: int) -> SurfaceModel {
    if m.is_paintable() {
        SurfaceModel { data: gradient_data(m.width, m.height, ox, oy), ..m }
    } else {
        m
    }
}

/// The packed 32-bit pixel value at column `x`, row `y` of a buffer
/// with the given row stride, read little-endian.
pub open spec fn pixel_at(data: Seq<u8>, stride: int, x: int, y: int) -> int {
    let base = y * stride + x * 4;
    data[base] + 0x100 * data[base + 1] + 0x10000 * data[base + 2] + 0x1000000 * data[base + 3]
}

/// The packed pixel value the gradient assigns to column `x`, row `y`:
/// the low byte is `(x + ox) mod 256`, the next byte `(y + oy) mod 256`.
pub open spec fn gradient_pixel(x: int, y: int, ox: int, oy: int) -> int {
    0x100 * ((y + oy) % 256) + (x + ox) % 256
}

/// Reduce a (possibly negative) coordinate sum modulo 256.
fn wrap_byte(v: i64) -> (r: u8)
    requires
        -0x8000_0000 <= v <= 0x7fff_ffff_0000_0000,
    ensures
        r == wrap256(v as int),
{
    let shifted: u64 = (v + 0x8000_0000) as u64;
    let r: u8 = (shifted % 256) as u8;
    proof {
        lemma_mod_multiples_vanish(0x80_0000, v as int, 256);
        assert(256 * 0x80_0000 + v == shifted as int);
    }
    r
}

impl PixelSurface {
    /// Fill the whole surface with the gradient for the given offsets.
    ///
    /// A surface whose backing block is empty (a failed allocation, or
    /// one never sized) is left untouched: the fill never faults on a
    /// non-paintable surface.
    pub fn fill_gradient(&mut self, x_offset: i32, y_offset: i32)
        requires
            old(self).wf(),
        ensures
            final(self).wf(),
            final(self)@ == filled(old(self)@, x_offset as int, y_offset as int),
    {
        if self.buffer.len() == 0 {
            return ;
        }
        let ghost m = self@;
        let stride_u: usize = self.stride as usize;
        let total: usize = self.buffer.len();
        proof {
            assert(m.is_paintable());
            assert(m.width * 4 > 0) by {
                assert(m.byte_size() > 0);
                assert(m.width > 0 && m.height > 0) by (nonlinear_arith)
                    requires
                        0 <= m.width,
                        0 <= m.height,
                        m.width * m.height * 4 > 0,
                ;
            }
        }
        let mut block: Vec<u8> = Vec::new();
        let mut i: usize = 0;
        while i < total
            invariant
                i <= total,
                self == old(self),
                stride_u == m.width * 4,
                0 < stride_u,
                total == m.byte_size(),
                m == old(self)@,
                m.wf(),
                m.height <= i32::MAX,
                block@ =~= Seq::new(
                    i as nat,
                    |j: int| gradient_byte(j, m.width, x_offset as int, y_offset as int),
                ),
            decreases total - i,
        {
            let row: usize = i / stride_u;
            let rem: usize = i % stride_u;
            let col: usize = rem / 4;
            let channel: usize = rem % 4;
            proof {
                assert(total == (stride_u as int) * m.height) by (nonlinear_arith)
                    requires
                        total == m.width * m.height * 4,
                        stride_u == m.width * 4,
                ;
                assert(row <= m.height) by (nonlinear_arith)
                    requires
                        0 < stride_u,
                        row == i as int / (stride_u as int),
                        i < total,
                        total == (stride_u as int) * m.height,
                ;
                assert(col < stride_u);
                lemma_mod_mod(i as int, 4, m.width);
                assert(4 * m.width == m.width * 4);
                assert(channel == i as int % 4);
            }
            let b: u8 = if channel == 0 {
                wrap_byte(col as i64 + x_offset as i64)
            } else if channel == 1 {
                wrap_byte(row as i64 + y_offset as i64)
            } else {
                0u8
            };
            proof {
                assert(b == gradient_byte(i as int, m.width, x_offset as int, y_offset as int));
            }
            block.push(b);
            i = i + 1;
        }
        self.buffer = block;
        proof {
            assert(self@.data =~= gradient_data(
                m.width,
                m.height,
                x_offset as int,
                y_offset as int,
            ));
            assert(self@ == filled(m, x_offset as int, y_offset as int));
        }
    }

    /// Read back the packed 32-bit pixel at column `x`, row `y`.
    pub fn pixel(&self, x: i32, y: i32) -> (p: u32)
        requires
            self.wf(),
            self@.is_paintable(),
            0 <= x < self@.width,
            0 <= y < self@.height,
        ensures
            p == pixel_at(self@.data, self@.stride, x as int, y as int),
    {
        proof {
            lemma_pixel_base_in_range(self@.width, self@.height, x as int, y as int);
        }
        let base: usize = (y as usize) * (self.stride as usize) + (x as usize) * 4;
        let b0 = self.buffer[base];
        let b1 = self.buffer[base + 1];
        let b2 = self.buffer[base + 2];
        let b3 = self.buffer[base + 3];
        (b0 as u32) + 0x100 * (b1 as u32) + 0x10000 * (b2 as u32) + 0x1000000 * (b3 as u32)
    }
}

/// The four bytes of pixel `(x, y)` lie inside a `width x height`
/// buffer of four-byte pixels.
proof fn lemma_pixel_base_in_range(width: int, height: int, x: int, y: int)
    requires
        0 <= x < width,
        0 <= y < height,
    ensures
        0 <= y * (width * 4) + x * 4,
        y * (width * 4) + x * 4 + 3 < width * height * 4,
{
    assert(0 <= y * (width * 4) + x * 4 && y * (width * 4) + x * 4 + 3 < width * height * 4)
        by (nonlinear_arith)
        requires
            0 <= x < width,
            0 <= y < height,
    ;
}

/// The gradient fill round-trip: on a `width x height` surface filled
/// with offsets `(ox, oy)`, the packed pixel read back at `(x, y)`
/// equals `((y + oy) mod 256) * 256 + ((x + ox) mod 256)` for every
/// column `x` and row `y` of the surface.
pub proof fn lemma_fill_round_trip(width: int, height: int, ox: int, oy: int, x: int, y: int)
    requires
        0 <= x < width,
        0 <= y < height,
    ensures
        pixel_at(gradient_data(width, height, ox, oy), width * 4, x, y) == gradient_pixel(
            x,
            y,
            ox,
            oy,
        ),
{
    let data = gradient_data(width, height, ox, oy);
    let base = y * (width * 4) + x * 4;
    lemma_pixel_base_in_range(width, height, x, y);
    lemma_flat_offset_decomposes(width, x, y, 0);
    lemma_flat_offset_decomposes(width, x, y, 1);
    lemma_flat_offset_decomposes(width, x, y, 2);
    lemma_flat_offset_decomposes(width, x, y, 3);
    assert(data[base] == wrap256(x + ox));
    assert(data[base + 1] == wrap256(y + oy));
    assert(data[base + 2] == 0u8);
    assert(data[base + 3] == 0u8);
}

/// Splitting the flat offset of byte `k` of pixel `(x, y)` back into
/// row, column and channel recovers `y`, `x` and `k`.
proof fn lemma_flat_offset_decomposes(width: int, x: int, y: int, k: int)
    requires
        0 <= x < width,
        0 <= y,
        0 <= k < 4,
    ensures
        (y * (width * 4) + x * 4 + k) / (width * 4) == y,
        ((y * (width * 4) + x * 4 + k) % (width * 4)) / 4 == x,
        (y * (width * 4) + x * 4 + k) % 4 == k,
{
    let base = y * (width * 4) + x * 4;
    assert(y * (width * 4) + x * 4 + k == (width * 4) * y + (x * 4 + k)) by (nonlinear_arith);
    assert(0 <= x * 4 + k < width * 4) by (nonlinear_arith)
        requires
            0 <= x < width,
            0 <= k < 4,
    ;
    lemma_fundamental_div_mod_converse(base + k, width * 4, y, x * 4 + k);
    assert(y * (width * 4) + x * 4 + k == 4 * (width * y + x) + k) by (nonlinear_arith);
    lemma_fundamental_div_mod_converse(base + k, 4, width * y + x, k);
    lemma_fundamental_div_mod_converse(x * 4 + k, 4, x, k);
}

} // verus!
