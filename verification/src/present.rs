//! The presenter's side of a paint: the blit description handed to the
//! platform's stretch-copy operation, and the client-area snapshot it
//! is computed from. The copy itself is platform work; everything it
//! needs is pinned down here.

use vstd::prelude::*;

use crate::surface::{PixelSurface, SurfaceModel};

verus! {

/// Bitmap header compression value for raw uncompressed pixels.
pub const COMPRESSION_NONE: u32 = 0;

/// A transient snapshot of a window's client-area size, recomputed on
/// demand and never persisted.
#[derive(Clone, Copy, PartialEq, Eq, Structural, Debug)]
pub struct WindowDimension {
    pub width: i32,
    pub height: i32,
}

/// Compute the client-area size from the corners of a client rectangle.
pub fn window_dimension(left: i32, top: i32, right: i32, bottom: i32) -> (dim: WindowDimension)
    requires
        i32::MIN <= right - left <= i32::MAX,
        i32::MIN <= bottom - top <= i32::MAX,
    ensures
        dim.width == right - left,
        dim.height == bottom - top,
{
    WindowDimension { width: right - left, height: bottom - top }
}

/// Everything one stretch-copy of the surface into a window needs: the
/// destination region, the source region (always the whole logical
/// surface), and the bitmap header fields describing the buffer. The
/// negated header height declares the top-down row order. The stretch
/// is anisotropic by design: no aspect-ratio correction is applied
/// when the destination size differs — a documented simplification of
/// this core, not a bug.
#[derive(Clone, Copy, PartialEq, Eq, Structural, Debug)]
pub struct BlitParams {
    pub dst_width: i32,
    pub dst_height: i32,
    pub src_width: i32,
    pub src_height: i32,
    pub header_width: i32,
    pub header_height: i32,
    pub header_planes: u16,
    pub header_bit_count: u16,
    pub header_compression: u32,
}

/// The blit a paint of the given surface performs into a
/// `dst_width x dst_height` client area: the whole surface, stretched,
/// described top-down — or no blit at all while the surface has no
/// backing block, which a presenter must never write through.
pub open spec fn spec_blit_params(m: SurfaceModel, dst_width: i32, dst_height: i32) -> Option<
    BlitParams,
> {
    if m.is_paintable() {
        Some(
            BlitParams {
                dst_width,
                dst_height,
                src_width: m.width as i32,
                src_height: m.height as i32,
                header_width: m.width as i32,
                header_height: (-m.height) as i32,
                header_planes: 1,
                header_bit_count: 32,
                header_compression: COMPRESSION_NONE,
            },
        )
    } else {
        None
    }
}

impl PixelSurface {
    /// Describe the blit that presents this surface into a client area
    /// of the given size, or report that the surface is not paintable.
    pub fn blit_params(&self, dst_width: i32, dst_height: i32) -> (params: Option<BlitParams>)
        requires
            self.wf(),
        ensures
            params == spec_blit_params(self@, dst_width, dst_height),
    {
        if self.buffer.len() > 0 {
            Some(
                BlitParams {
                    dst_width,
                    dst_height,
                    src_width: self.width,
                    src_height: self.height,
                    header_width: self.width,
                    header_height: -self.height,
                    header_planes: 1,
                    header_bit_count: 32,
                    header_compression: COMPRESSION_NONE,
                },
            )
        } else {
            None
        }
    }
}

} // verus!
