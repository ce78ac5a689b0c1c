//! The off-screen backbuffer: a CPU-addressable pixel surface with a
//! top-down row layout, four bytes per pixel (blue, green, red, padding),
//! and a row stride of `width * 4` bytes.

use vstd::prelude::*;

verus! {

/// Number of bytes each pixel occupies in the surface buffer.
pub const BYTES_PER_PIXEL: i32 = 4;

/// Mathematical model of a [`PixelSurface`]: its dimensions and the
/// byte contents of its backing block.
pub struct SurfaceModel {
    pub width: int,
    pub height: int,
    pub stride: int,
    pub bytes_per_pixel: int,
    pub data: Seq<u8>,
}

impl SurfaceModel {
    /// The number of bytes a fully allocated backing block holds.
    pub open spec fn byte_size(self) -> int {
        self.width * self.height * 4
    }

    /// Dimensions are non-negative, the stride matches the width, and the
    /// backing block is either empty (allocation failed or never sized)
    /// or exactly sized for the dimensions — never partially resized.
    pub open spec fn wf(self) -> bool {
        &&& 0 <= self.width
        &&& 0 <= self.height
        &&& self.width * 4 <= i32::MAX
        &&& self.byte_size() <= i32::MAX
        &&& self.bytes_per_pixel == 4
        &&& self.stride == self.width * 4
        &&& (self.data.len() == self.byte_size() || self.data.len() == 0)
    }

    /// A surface can be painted from only when its backing block is
    /// present and non-empty.
    pub open spec fn is_paintable(self) -> bool {
        self.data.len() == self.byte_size() && self.byte_size() > 0
    }

    /// The model a resize to `width x height` produces when the raw
    /// memory provider grants the block: a fresh zeroed block.
    pub open spec fn resized(self, width: int, height: int) -> SurfaceModel {
        SurfaceModel {
            width,
            height,
            stride: width * 4,
            bytes_per_pixel: 4,
            data: Seq::new((width * height * 4) as nat, |i: int| 0u8),
        }
    }

    /// The model a resize produces when the allocation fails: the
    /// requested dimensions are recorded but the block stays empty, so
    /// the surface is not paintable.
    pub open spec fn resize_failed(self, width: int, height: int) -> SurfaceModel {
        SurfaceModel {
            width,
            height,
            stride: width * 4,
            bytes_per_pixel: 4,
            data: Seq::empty(),
        }
    }
}

/// The off-screen backbuffer. Logical row 0 is the topmost displayed
/// row; the presenter advertises this with a negated height in the blit
/// header it hands to the platform.
pub struct PixelSurface {
    pub width: i32,
    pub height: i32,
    pub stride: i32,
    pub bytes_per_pixel: i32,
    pub buffer: Vec<u8>,
}

impl View for PixelSurface {
    type V = SurfaceModel;

    open spec fn view(&self) -> SurfaceModel {
        SurfaceModel {
            width: self.width as int,
            height: self.height as int,
            stride: self.stride as int,
            bytes_per_pixel: self.bytes_per_pixel as int,
            data: self.buffer@,
        }
    }
}

impl PixelSurface {
    /// Well-formedness of the executable surface, stated on its model.
    pub open spec fn wf(self) -> bool {
        self@.wf()
    }

    /// The surface a process starts with: zero-sized, never allocated.
    pub fn new_empty() -> (s: PixelSurface)
        ensures
            s.wf(),
            s@.width == 0,
            s@.height == 0,
            s@.stride == 0,
            s@.data.len() == 0,
            !s@.is_paintable(),
    {
        PixelSurface {
            width: 0,
            height: 0,
            stride: 0,
            bytes_per_pixel: BYTES_PER_PIXEL,
            buffer: Vec::new(),
        }
    }

    /// Install the outcome of one allocation request for new dimensions.
    ///
    /// The previous block is released (dropped) unconditionally; when
    /// `alloc_ok` is false the surface records the requested dimensions
    /// with an empty block, which callers must treat as not paintable.
    /// No partially resized state is ever observable.
    pub fn apply_resize(&mut self, width: i32, height: i32, alloc_ok: bool)
        requires
            0 <= width,
            0 <= height,
            width * 4 <= i32::MAX,
            width * height * 4 <= i32::MAX,
        ensures
            final(self).wf(),
            alloc_ok ==> final(self)@ == old(self)@.resized(width as int, height as int),
            !alloc_ok ==> final(self)@ == old(self)@.resize_failed(width as int, height as int),
            final(self)@.width == width,
            final(self)@.height == height,
            final(self)@.stride == width * 4,
            alloc_ok ==> final(self)@.data.len() == width * height * 4,
            !alloc_ok ==> final(self)@.data.len() == 0,
    {
        proof {
            assert(0 <= width * height) by (nonlinear_arith)
                requires
                    0 <= width,
                    0 <= height,
            ;
        }
        self.width = width;
        self.height = height;
        self.bytes_per_pixel = BYTES_PER_PIXEL;
        self.stride = width * BYTES_PER_PIXEL;
        self.buffer = Vec::new();
        if alloc_ok {
            let total: usize = (width * height * BYTES_PER_PIXEL) as usize;
            let mut block: Vec<u8> = Vec::new();
            let mut i: usize = 0;
            while i < total
                invariant
                    i <= total,
                    block@ =~= Seq::new(i as nat, |j: int| 0u8),
                decreases total - i,
            {
                block.push(0u8);
                i = i + 1;
            }
            self.buffer = block;
            assert(self@.data =~= old(self)@.resized(width as int, height as int).data);
        } else {
            assert(self@.data =~= Seq::<u8>::empty());
        }
    }

    /// Resize the surface for new window dimensions, releasing the old
    /// block and installing a fresh zeroed one of exactly
    /// `width * height * 4` bytes.
    pub fn resize(&mut self, width: i32, height: i32)
        requires
            0 <= width,
            0 <= height,
            width * 4 <= i32::MAX,
            width * height * 4 <= i32::MAX,
        ensures
            final(self).wf(),
            final(self)@ == old(self)@.resized(width as int, height as int),
            final(self)@.width == width,
            final(self)@.height == height,
            final(self)@.stride == width * 4,
            final(self)@.data.len() == width * height * 4,
    {
        self.apply_resize(width, height, true);
    }

    /// Executable mirror of the model's paintability test.
    pub fn is_paintable(&self) -> (r: bool)
        requires
            self.wf(),
        ensures
            r == self@.is_paintable(),
    {
        self.buffer.len() > 0
    }
}

/// Resizing twice to the same dimensions yields a structurally
/// equivalent surface: the second resize reproduces the first's model
/// exactly (dimensions, stride, and a fresh zeroed block alike).
pub proof fn lemma_resize_idempotent(m: SurfaceModel, width: int, height: int)
    ensures
        m.resized(width, height).resized(width, height) == m.resized(width, height),
{
    assert(m.resized(width, height).resized(width, height).data =~= m.resized(
        width,
        height,
    ).data);
}

} // verus!
