//! Picture memory allocation: the geometry an allocator must provide, and the
//! capability a caller implements to allocate picture buffers itself.
use vstd::prelude::*;

use crate::error::Error;
use crate::picture::PixelLayout;

verus! {

/// Number of bytes that picture buffers are aligned to, and padded by, so that
/// vectorised code may over-read and use aligned accesses.
pub const PICTURE_ALIGNMENT: usize = 64;

/// Number of pixels that plane widths and heights are rounded up to.
pub const PICTURE_BLOCK: u64 = 128;

/// Picture parameters used for allocation.
#[derive(Debug, Copy, Clone, PartialEq, Eq, Structural)]
pub struct PictureParameters {
    /// Width in pixels.
    pub w: u32,
    /// Height in pixels.
    pub h: u32,
    /// Layout of the picture.
    pub layout: PixelLayout,
    /// Bits per sample.
    pub bit_depth: usize,
}

/// `x` rounded up to a multiple of `PICTURE_BLOCK`.
pub open spec fn align_block(x: int) -> int {
    ((x + 127) / 128) * 128
}

/// Bytes per stored sample: two above 8 bits, one otherwise.
pub open spec fn sample_bytes(bit_depth: int) -> int {
    if bit_depth > 8 {
        2
    } else {
        1
    }
}

/// Half of `x`, rounded up.
pub open spec fn ceil_half(x: int) -> int {
    (x + 1) / 2
}

/// Width in samples of each chroma plane (0 where there is none).
pub open spec fn chroma_width(layout: PixelLayout, w: int) -> int {
    match layout {
        PixelLayout::I400 => 0,
        PixelLayout::I420 | PixelLayout::I422 => ceil_half(w),
        PixelLayout::I444 => w,
    }
}

/// Height in rows of each chroma plane (0 where there is none).
pub open spec fn chroma_height(layout: PixelLayout, h: int) -> int {
    match layout {
        PixelLayout::I400 => 0,
        PixelLayout::I420 => ceil_half(h),
        PixelLayout::I422 | PixelLayout::I444 => h,
    }
}

/// Bytes of one plane with the given stride and padded height, including the
/// trailing padding.
pub open spec fn plane_size(stride: int, padded_height: int) -> int {
    stride * padded_height + PICTURE_ALIGNMENT
}

/// Strides, padded heights and byte sizes of the luma plane and of each chroma
/// plane of a picture.
#[derive(Debug, Copy, Clone, PartialEq, Eq, Structural)]
pub struct PlaneLayout {
    pub luma_stride: u64,
    pub chroma_stride: u64,
    pub luma_height: u64,
    pub chroma_height: u64,
    pub luma_size: u64,
    pub chroma_size: u64,
}

impl PictureParameters {
    pub open spec fn spec_luma_stride(self) -> int {
        align_block(self.w as int) * sample_bytes(self.bit_depth as int)
    }

    pub open spec fn spec_chroma_stride(self) -> int {
        align_block(chroma_width(self.layout, self.w as int)) * sample_bytes(self.bit_depth as int)
    }

    pub open spec fn spec_luma_height(self) -> int {
        align_block(self.h as int)
    }

    pub open spec fn spec_chroma_height(self) -> int {
        align_block(chroma_height(self.layout, self.h as int))
    }

    pub open spec fn spec_luma_size(self) -> int {
        plane_size(self.spec_luma_stride(), self.spec_luma_height())
    }

    /// Bytes of each chroma plane; a monochrome picture has none.
    pub open spec fn spec_chroma_size(self) -> int {
        if self.layout == PixelLayout::I400 {
            0
        } else {
            plane_size(self.spec_chroma_stride(), self.spec_chroma_height())
        }
    }

    /// Whether the plane sizes of the picture fit in a `u64`.
    pub open spec fn layout_fits(self) -> bool {
        self.spec_luma_size() <= u64::MAX && self.spec_chroma_size() <= u64::MAX
    }

    /// The plane layout an allocator provides for these parameters, or `None`
    /// where a plane's byte size does not fit in a `u64`.
    pub fn plane_layout(&self) -> (r: Option<PlaneLayout>)
        ensures
            r is Some <==> self.layout_fits(),
            r matches Some(l) ==> {
                &&& l.luma_stride == self.spec_luma_stride()
                &&& l.chroma_stride == self.spec_chroma_stride()
                &&& l.luma_height == self.spec_luma_height()
                &&& l.chroma_height == self.spec_chroma_height()
                &&& l.luma_size == self.spec_luma_size()
                &&& l.chroma_size == self.spec_chroma_size()
            },
    {
        let bytes: u64 = if self.bit_depth > 8 {
            2
        } else {
            1
        };
        let w = self.w as u64;
        let h = self.h as u64;
        let (cw, ch): (u64, u64) = match self.layout {
            PixelLayout::I400 => (0, 0),
            PixelLayout::I420 => (w / 2 + w % 2, h / 2 + h % 2),
            PixelLayout::I422 => (w / 2 + w % 2, h),
            PixelLayout::I444 => (w, h),
        };
        let luma_stride = align_up(w) * bytes;
        let chroma_stride = align_up(cw) * bytes;
        let luma_height = align_up(h);
        let chroma_height = align_up(ch);
        let luma_size = match padded_size(luma_stride, luma_height) {
            Some(s) => s,
            None => {
                return None;
            },
        };
        let chroma_size = if self.layout == PixelLayout::I400 {
            0
        } else {
            match padded_size(chroma_stride, chroma_height) {
                Some(s) => s,
                None => {
                    return None;
                },
            }
        };
        Some(
            PlaneLayout {
                luma_stride,
                chroma_stride,
                luma_height,
                chroma_height,
                luma_size,
                chroma_size,
            },
        )
    }
}

/// `x` rounded up to a multiple of `PICTURE_BLOCK`.
fn align_up(x: u64) -> (r: u64)
    requires
        x <= u32::MAX,
    ensures
        r == align_block(x as int),
        r <= u32::MAX + 128,
{
    (x + (PICTURE_BLOCK - 1)) / PICTURE_BLOCK * PICTURE_BLOCK
}

/// `plane_size(stride, height)`, or `None` where it does not fit in a `u64`.
fn padded_size(stride: u64, height: u64) -> (r: Option<u64>)
    ensures
        r is Some <==> plane_size(stride as int, height as int) <= u64::MAX,
        r matches Some(s) ==> s == plane_size(stride as int, height as int),
{
    match stride.checked_mul(height) {
        Some(bytes) => bytes.checked_add(PICTURE_ALIGNMENT as u64),
        None => None,
    }
}

/// `align_block` rounds up to the next multiple of 128 and no further.
proof fn lemma_align_block(x: int)
    requires
        x >= 0,
    ensures
        align_block(x) >= x,
        align_block(x) < x + 128,
        align_block(x) % 128 == 0,
        align_block(x) >= 0,
{
    let q = (x + 127) / 128;
    assert(q * 128 % 128 == 0) by (nonlinear_arith);
}

/// The layout that `plane_layout` gives covers each plane: every stride is a
/// multiple of `PICTURE_ALIGNMENT` and holds a full row of samples, every
/// padded height holds every row, and every plane's byte size covers its
/// stride times its padded height plus `PICTURE_ALIGNMENT` bytes of padding.
pub proof fn lemma_plane_layout_covers(p: PictureParameters)
    ensures
        p.spec_luma_stride() % PICTURE_ALIGNMENT as int == 0,
        p.spec_chroma_stride() % PICTURE_ALIGNMENT as int == 0,
        p.spec_luma_stride() >= p.w * sample_bytes(p.bit_depth as int),
        p.spec_chroma_stride() >= chroma_width(p.layout, p.w as int) * sample_bytes(
            p.bit_depth as int,
        ),
        p.spec_luma_height() >= p.h,
        p.spec_chroma_height() >= chroma_height(p.layout, p.h as int),
        p.spec_luma_size() >= p.spec_luma_stride() * p.spec_luma_height() + PICTURE_ALIGNMENT,
        p.layout != PixelLayout::I400 ==> p.spec_chroma_size() >= p.spec_chroma_stride()
            * p.spec_chroma_height() + PICTURE_ALIGNMENT,
{
    let b = sample_bytes(p.bit_depth as int);
    let cw = chroma_width(p.layout, p.w as int);
    let ch = chroma_height(p.layout, p.h as int);
    lemma_align_block(p.w as int);
    lemma_align_block(p.h as int);
    lemma_align_block(cw);
    lemma_align_block(ch);
    let lw = align_block(p.w as int);
    let lc = align_block(cw);
    assert(lw * b % 64 == 0) by (nonlinear_arith)
        requires
            lw % 128 == 0,
            b == 1 || b == 2,
    ;
    assert(lc * b % 64 == 0) by (nonlinear_arith)
        requires
            lc % 128 == 0,
            b == 1 || b == 2,
    ;
    assert(lw * b >= p.w * b) by (nonlinear_arith)
        requires
            lw >= p.w,
            b >= 1,
    ;
    assert(lc * b >= cw * b) by (nonlinear_arith)
        requires
            lc >= cw,
            b >= 1,
    ;
}

/// Memory that an allocator provides for one picture.
///
/// The plane addresses are given as integers: Y is `data[0]`, U is `data[1]`,
/// V is `data[2]`. U and V share `stride[1]`.
#[derive(Debug, PartialEq, Eq)]
pub struct PictureAllocation<D> {
    /// Addresses of the planes; 0 stands for no plane.
    pub data: [usize; 3],
    /// Bytes between two rows: of luma in `stride[0]`, of chroma in `stride[1]`.
    pub stride: [isize; 2],
    /// Data of the allocator that can be retrieved from the picture later.
    pub allocator_data: D,
}

impl<D> PictureAllocation<D> {
    /// The allocation meets the contract for pictures with parameters `p`:
    /// every plane that the layout has is present at an address aligned to
    /// `PICTURE_ALIGNMENT` with a stride that holds a row of samples and is a
    /// multiple of `PICTURE_ALIGNMENT`; a monochrome picture has no chroma.
    pub open spec fn spec_fits(&self, p: PictureParameters) -> bool {
        let b = sample_bytes(p.bit_depth as int);
        &&& self.data[0] != 0
        &&& self.data[0] % PICTURE_ALIGNMENT == 0
        &&& self.stride[0] >= p.w * b
        &&& self.stride[0] as int % PICTURE_ALIGNMENT as int == 0
        &&& if p.layout == PixelLayout::I400 {
            self.data[1] == 0 && self.data[2] == 0 && self.stride[1] == 0
        } else {
            &&& self.data[1] != 0 && self.data[2] != 0
            &&& self.data[1] % PICTURE_ALIGNMENT == 0
            &&& self.data[2] % PICTURE_ALIGNMENT == 0
            &&& self.stride[1] >= chroma_width(p.layout, p.w as int) * b
            &&& self.stride[1] as int % PICTURE_ALIGNMENT as int == 0
        }
    }

    /// Whether the allocation meets the contract for pictures with parameters `p`.
    pub fn fits(&self, p: &PictureParameters) -> (r: bool)
        ensures
            r == self.spec_fits(*p),
    {
        let b: i64 = if p.bit_depth > 8 {
            2
        } else {
            1
        };
        let (cw, has_chroma): (i64, bool) = match p.layout {
            PixelLayout::I400 => (0, false),
            PixelLayout::I420 | PixelLayout::I422 => (p.w as i64 / 2 + p.w as i64 % 2, true),
            PixelLayout::I444 => (p.w as i64, true),
        };
        let luma_ok = self.data[0] != 0 && self.data[0] % PICTURE_ALIGNMENT == 0
            && self.stride[0] as i64 >= p.w as i64 * b && self.stride[0] % (PICTURE_ALIGNMENT as isize)
            == 0;
        let chroma_ok = if has_chroma {
            self.data[1] != 0 && self.data[2] != 0 && self.data[1] % PICTURE_ALIGNMENT == 0
                && self.data[2] % PICTURE_ALIGNMENT == 0 && self.stride[1] as i64 >= cw * b
                && self.stride[1] % (PICTURE_ALIGNMENT as isize) == 0
        } else {
            self.data[1] == 0 && self.data[2] == 0 && self.stride[1] == 0
        };
        luma_ok && chroma_ok
    }
}

/// A capability to allocate and release picture buffers.
///
/// `release_picture` may be called from any of the decoder's threads, and must
/// release exactly what the matching `alloc_picture` call provided.
pub trait PictureAllocator: Send + Sync + 'static {
    /// Allocator data that is stored together with the picture.
    type AllocatorData: Send + 'static;

    /// Allocates the picture buffers for `pic_params`; the result must meet
    /// `PictureAllocation::fits` and each plane must be padded by
    /// `PICTURE_ALIGNMENT` bytes (see `PictureParameters::plane_layout`).
    fn alloc_picture(&self, pic_params: &PictureParameters) -> Result<
        PictureAllocation<Self::AllocatorData>,
        Error,
    >;

    /// Releases the picture buffers of `allocation`.
    fn release_picture(&self, allocation: PictureAllocation<Self::AllocatorData>);
}

/// Stands for the native engine's own allocator, which a decoder uses when it
/// is given no allocator. It cannot be instantiated, so its methods are never
/// called.
#[derive(Debug)]
pub struct DefaultAllocator(());

impl PictureAllocator for DefaultAllocator {
    type AllocatorData = ();

    fn alloc_picture(&self, _pic_params: &PictureParameters) -> Result<
        PictureAllocation<()>,
        Error,
    > {
        Err(Error::InvalidArgument)
    }

    fn release_picture(&self, _allocation: PictureAllocation<()>) {
    }
}

} // verus!
