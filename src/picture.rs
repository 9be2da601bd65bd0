//! Decoded pictures: frame metadata, plane geometry and plane views.
use vstd::prelude::*;

use std::sync::Arc;

use crate::allocator::{DefaultAllocator, PictureAllocator};
use crate::pixel::{
    chroma_location_from_native, chroma_location_of, color_primaries_from_native,
    color_range_from_native, matrix_coefficients_from_native, matrix_of, primaries_of,
    transfer_characteristic_from_native, transfer_of, ChromaLocation, ColorPrimaries,
    MatrixCoefficients, TransferCharacteristic, YUVRange,
};

verus! {

/// Pixel layout of a frame.
#[derive(Debug, Copy, Clone, PartialEq, Eq, Structural)]
pub enum PixelLayout {
    /// Monochrome.
    I400,
    /// 4:2:0 planar.
    I420,
    /// 4:2:2 planar.
    I422,
    /// 4:4:4 planar.
    I444,
}

impl PixelLayout {
    /// The layout of a native layout code, if the code is one.
    pub open spec fn spec_from_native(code: u32) -> Option<PixelLayout> {
        if code == 0 {
            Some(PixelLayout::I400)
        } else if code == 1 {
            Some(PixelLayout::I420)
        } else if code == 2 {
            Some(PixelLayout::I422)
        } else if code == 3 {
            Some(PixelLayout::I444)
        } else {
            None
        }
    }

    /// Reads a native layout code.
    pub fn from_native(code: u32) -> (r: Option<PixelLayout>)
        ensures
            r == PixelLayout::spec_from_native(code),
    {
        match code {
            0 => Some(PixelLayout::I400),
            1 => Some(PixelLayout::I420),
            2 => Some(PixelLayout::I422),
            3 => Some(PixelLayout::I444),
            _ => None,
        }
    }
}

/// Component of a planar frame.
#[derive(Debug, Copy, Clone, PartialEq, Eq, Structural)]
pub enum PlanarImageComponent {
    /// Y component.
    Y,
    /// U component.
    U,
    /// V component.
    V,
}

impl PlanarImageComponent {
    /// The plane index of a component: Y is 0, U is 1, V is 2.
    pub open spec fn spec_index(self) -> usize {
        match self {
            PlanarImageComponent::Y => 0,
            PlanarImageComponent::U => 1,
            PlanarImageComponent::V => 2,
        }
    }

    /// The component of a plane index below 3.
    pub fn from_index(index: usize) -> (r: PlanarImageComponent)
        requires
            index < 3,
        ensures
            r.spec_index() == index,
    {
        match index {
            0 => PlanarImageComponent::Y,
            1 => PlanarImageComponent::U,
            _ => PlanarImageComponent::V,
        }
    }
}

impl From<PlanarImageComponent> for usize {
    fn from(component: PlanarImageComponent) -> (r: usize) {
        match component {
            PlanarImageComponent::Y => 0,
            PlanarImageComponent::U => 1,
            PlanarImageComponent::V => 2,
        }
    }
}

impl vstd::std_specs::convert::FromSpecImpl<PlanarImageComponent> for usize {
    open spec fn obeys_from_spec() -> bool {
        true
    }

    open spec fn from_spec(component: PlanarImageComponent) -> usize {
        component.spec_index()
    }
}

/// Number of bits used per component.
#[derive(Debug, Copy, Clone, PartialEq, Eq, Structural)]
pub struct BitsPerComponent(pub usize);

/// Content light level information as specified in CEA-861.3, Appendix A.
#[derive(Debug, Copy, Clone, PartialEq, Eq, Structural)]
pub struct ContentLightLevel {
    /// Maximum content light level (MaxCLL) in candela per square metre.
    pub max_content_light_level: u16,
    /// Maximum frame average light level (MaxFLL) in candela per square metre.
    pub max_frame_average_light_level: u16,
}

/// Mastering display information as specified in SMPTE ST 2086.
#[derive(Debug, Copy, Clone, PartialEq, Eq)]
pub struct MasteringDisplay {
    /// Red/green/blue XY coordinates of primaries in CIE 1931 colour space, 0.16 fixed point.
    pub primaries: [[u16; 2]; 3],
    /// XY coordinates of the white point in CIE 1931 colour space, 0.16 fixed point.
    pub white_point: [u16; 2],
    /// Maximum luminance in candela per square metre, 24.8 fixed point.
    pub max_luminance: u32,
    /// Minimum luminance in candela per square metre, 18.14 fixed point.
    pub min_luminance: u32,
}

/// The native timestamp of data and frames that were given none.
pub const DAV1D_TIMESTAMP_UNSET: i64 = i64::MIN;

/// Metadata of a chunk of encoded data, carried over to the frames decoded
/// from it.
#[derive(Debug, Copy, Clone, PartialEq, Eq, Structural)]
pub struct DataProps {
    /// Timestamp, or `DAV1D_TIMESTAMP_UNSET`.
    pub timestamp: i64,
    /// Duration; 0 where none was given.
    pub duration: i64,
    /// Offset in the stream; -1 where none was given.
    pub offset: i64,
}

impl DataProps {
    /// The metadata of data submitted with the given optional values; the
    /// absent ones take the native defaults.
    pub open spec fn spec_new(offset: Option<i64>, timestamp: Option<i64>, duration: Option<i64>) -> DataProps {
        DataProps {
            timestamp: match timestamp {
                Some(t) => t,
                None => DAV1D_TIMESTAMP_UNSET,
            },
            duration: match duration {
                Some(d) => d,
                None => 0,
            },
            offset: match offset {
                Some(o) => o,
                None => -1i64,
            },
        }
    }

    /// Metadata for data submitted with the given optional values.
    pub fn new(offset: Option<i64>, timestamp: Option<i64>, duration: Option<i64>) -> (r: DataProps)
        ensures
            r == DataProps::spec_new(offset, timestamp, duration),
    {
        DataProps {
            timestamp: match timestamp {
                Some(t) => t,
                None => DAV1D_TIMESTAMP_UNSET,
            },
            duration: match duration {
                Some(d) => d,
                None => 0,
            },
            offset: match offset {
                Some(o) => o,
                None => -1,
            },
        }
    }
}

/// What a decoded native frame record holds, as plain values.
#[derive(Debug, Copy, Clone, PartialEq, Eq)]
pub struct FrameInfo {
    /// Width in pixels.
    pub width: i32,
    /// Height in pixels.
    pub height: i32,
    /// Pixel layout.
    pub layout: PixelLayout,
    /// Storage bits per sample.
    pub bpc: i32,
    /// Bytes between two rows: of luma in `stride[0]`, of chroma in `stride[1]`.
    pub stride: [isize; 2],
    /// Metadata of the data the frame was decoded from.
    pub props: DataProps,
    /// High bit depth code of the sequence header: 0, 1, 2 for 8, 10, 12 bits.
    pub hbd: i32,
    /// Native colour primaries code.
    pub pri: u32,
    /// Native transfer characteristic code.
    pub trc: u32,
    /// Native matrix coefficients code.
    pub mtrx: u32,
    /// Native colour range flag.
    pub color_range: i32,
    /// Native chroma sample position code.
    pub chr: u32,
    /// Content light level, where the stream carries it.
    pub content_light: Option<ContentLightLevel>,
    /// Mastering display information, where the stream carries it.
    pub mastering_display: Option<MasteringDisplay>,
}

/// Height in rows of the plane of `component`: half the frame height, rounded
/// up, for chroma of a 4:2:0 frame; the frame height otherwise.
pub open spec fn plane_height(f: FrameInfo, component: PlanarImageComponent) -> u32 {
    let h = f.height as u32;
    if component != PlanarImageComponent::Y && f.layout == PixelLayout::I420 {
        (h / 2 + h % 2) as u32
    } else {
        h
    }
}

/// Stride in bytes of the plane of `component`.
pub open spec fn plane_stride(f: FrameInfo, component: PlanarImageComponent) -> u32 {
    if component == PlanarImageComponent::Y {
        f.stride[0] as u32
    } else {
        f.stride[1] as u32
    }
}

/// Bits per component of a high bit depth code.
pub open spec fn bits_of(hbd: i32) -> Option<BitsPerComponent> {
    if hbd == 0 {
        Some(BitsPerComponent(8))
    } else if hbd == 1 {
        Some(BitsPerComponent(10))
    } else if hbd == 2 {
        Some(BitsPerComponent(12))
    } else {
        None
    }
}

/// A decoded frame.
///
/// Clones share the allocator and its data for the frame.
pub struct Picture<A: PictureAllocator = DefaultAllocator> {
    frame: FrameInfo,
    allocator_data: Option<Arc<A::AllocatorData>>,
    allocator: Option<Arc<A>>,
}

impl<A: PictureAllocator> View for Picture<A> {
    type V = FrameInfo;

    closed spec fn view(&self) -> FrameInfo {
        self.frame
    }
}

impl<A: PictureAllocator> Clone for Picture<A> {
    fn clone(&self) -> (r: Self)
        ensures
            r@ == self@,
            r.holds_allocator() == self.holds_allocator(),
    {
        Picture {
            frame: self.frame,
            allocator_data: self.allocator_data.clone(),
            allocator: self.allocator.clone(),
        }
    }
}

impl<A: PictureAllocator> Picture<A> {
    /// A picture of the frame `frame`, produced by a decoder with `allocator`,
    /// which gave the frame's buffers with `allocator_data`.
    pub fn new(
        frame: FrameInfo,
        allocator: Option<Arc<A>>,
        allocator_data: Option<Arc<A::AllocatorData>>,
    ) -> (r: Picture<A>)
        ensures
            r@ == frame,
            r.holds_allocator() <==> allocator is Some,
            r.spec_allocator_data() == allocator_data,
    {
        Picture { frame, allocator_data, allocator }
    }

    /// Whether the picture holds a reference to an allocator, which keeps the
    /// allocator alive for as long as the picture lives.
    pub closed spec fn holds_allocator(&self) -> bool {
        self.allocator is Some
    }

    /// The allocator of the decoder that produced the picture, if it had one.
    pub fn allocator(&self) -> (r: Option<&Arc<A>>)
        ensures
            r is Some <==> self.holds_allocator(),
    {
        self.allocator.as_ref()
    }

    /// Stride in bytes of the plane of `component`.
    pub fn stride(&self, component: PlanarImageComponent) -> (r: u32)
        ensures
            r == plane_stride(self@, component),
    {
        let s: usize = match component {
            PlanarImageComponent::Y => 0,
            _ => 1,
        };
        self.frame.stride[s] as u32
    }

    /// Stride and height of the plane of `component`.
    pub fn plane_data_geometry(&self, component: PlanarImageComponent) -> (r: (u32, u32))
        ensures
            r == (plane_stride(self@, component), plane_height(self@, component)),
    {
        let h = self.height();
        let height = match component {
            PlanarImageComponent::Y => h,
            _ => match self.pixel_layout() {
                PixelLayout::I420 => h / 2 + h % 2,
                PixelLayout::I400 | PixelLayout::I422 | PixelLayout::I444 => h,
            },
        };
        (self.stride(component), height)
    }

    /// The plane of `component`.
    pub fn plane(&self, component: PlanarImageComponent) -> (r: Plane<A>)
        ensures
            r.picture()@ == self@,
            r.component() == component,
    {
        Plane(self.clone(), component)
    }

    /// Storage bits per sample.
    pub fn bit_depth(&self) -> (r: usize)
        ensures
            r == self@.bpc as usize,
    {
        self.frame.bpc as usize
    }

    /// Bits used per component: 8, 10 or 12, or `None` for an unknown code.
    pub fn bits_per_component(&self) -> (r: Option<BitsPerComponent>)
        ensures
            r == bits_of(self@.hbd),
    {
        match self.frame.hbd {
            0 => Some(BitsPerComponent(8)),
            1 => Some(BitsPerComponent(10)),
            2 => Some(BitsPerComponent(12)),
            _ => None,
        }
    }

    /// Width of the frame.
    pub fn width(&self) -> (r: u32)
        ensures
            r == self@.width as u32,
    {
        self.frame.width as u32
    }

    /// Height of the frame.
    pub fn height(&self) -> (r: u32)
        ensures
            r == self@.height as u32,
    {
        self.frame.height as u32
    }

    /// Pixel layout of the frame.
    pub fn pixel_layout(&self) -> (r: PixelLayout)
        ensures
            r == self@.layout,
    {
        self.frame.layout
    }

    /// Timestamp of the frame, as given to `send_data`; `None` where none was.
    pub fn timestamp(&self) -> (r: Option<i64>)
        ensures
            r == (if self@.props.timestamp == DAV1D_TIMESTAMP_UNSET {
                None
            } else {
                Some(self@.props.timestamp)
            }),
    {
        let ts = self.frame.props.timestamp;
        if ts == DAV1D_TIMESTAMP_UNSET {
            None
        } else {
            Some(ts)
        }
    }

    /// Duration of the frame, as given to `send_data`; 0 where none was.
    pub fn duration(&self) -> (r: i64)
        ensures
            r == self@.props.duration,
    {
        self.frame.props.duration
    }

    /// Offset of the frame, as given to `send_data`; -1 where none was.
    pub fn offset(&self) -> (r: i64)
        ensures
            r == self@.props.offset,
    {
        self.frame.props.offset
    }

    /// Chromaticity coordinates of the source colour primaries.
    pub fn color_primaries(&self) -> (r: ColorPrimaries)
        ensures
            r == primaries_of(self@.pri),
    {
        color_primaries_from_native(self.frame.pri)
    }

    /// Transfer characteristic function.
    pub fn transfer_characteristic(&self) -> (r: TransferCharacteristic)
        ensures
            r == transfer_of(self@.trc),
    {
        transfer_characteristic_from_native(self.frame.trc)
    }

    /// Matrix coefficients deriving luma and chroma from the primaries.
    pub fn matrix_coefficients(&self) -> (r: MatrixCoefficients)
        ensures
            r == matrix_of(self@.mtrx),
    {
        matrix_coefficients_from_native(self.frame.mtrx)
    }

    /// YUV colour range.
    pub fn color_range(&self) -> (r: YUVRange)
        ensures
            r == (if self@.color_range == 0 { YUVRange::Limited } else { YUVRange::Full }),
    {
        color_range_from_native(self.frame.color_range)
    }

    /// Sample position of subsampled chroma.
    pub fn chroma_location(&self) -> (r: ChromaLocation)
        ensures
            r == chroma_location_of(self@.chr),
    {
        chroma_location_from_native(self.frame.chr)
    }

    /// Whether the picture carries allocator data.
    pub open spec fn has_allocator_data(&self) -> bool {
        self.spec_allocator_data() is Some
    }

    /// The allocator data the picture carries.
    pub closed spec fn spec_allocator_data(&self) -> Option<Arc<A::AllocatorData>> {
        self.allocator_data
    }

    /// The data that the decoder's allocator stored with the picture; `None`
    /// under the native allocator.
    pub fn allocator_data(&self) -> (r: Option<&A::AllocatorData>)
        ensures
            r is Some <==> self.has_allocator_data(),
            r matches Some(d) ==> self.spec_allocator_data() == Some(Arc::new(*d)),
    {
        match &self.allocator_data {
            Some(d) => Some(&**d),
            None => None,
        }
    }

    /// Content light level information, where the stream carries it.
    pub fn content_light(&self) -> (r: Option<ContentLightLevel>)
        ensures
            r == self@.content_light,
    {
        self.frame.content_light
    }

    /// Mastering display information, where the stream carries it.
    pub fn mastering_display(&self) -> (r: Option<MasteringDisplay>)
        ensures
            r == self@.mastering_display,
    {
        self.frame.mastering_display
    }
}

/// A single plane of a decoded frame: the picture, kept alive by the plane,
/// and the component.
pub struct Plane<A: PictureAllocator = DefaultAllocator>(Picture<A>, PlanarImageComponent);

impl<A: PictureAllocator> Clone for Plane<A> {
    fn clone(&self) -> (r: Self)
        ensures
            r.picture()@ == self.picture()@,
            r.component() == self.component(),
    {
        Plane(self.0.clone(), self.1)
    }
}

impl<A: PictureAllocator> Plane<A> {
    /// The picture the plane belongs to.
    pub closed spec fn picture(&self) -> Picture<A> {
        self.0
    }

    /// The component of the plane.
    pub closed spec fn component(&self) -> PlanarImageComponent {
        self.1
    }

    /// The picture the plane belongs to.
    pub fn get_picture(&self) -> (r: &Picture<A>)
        ensures
            r@ == self.picture()@,
    {
        &self.0
    }

    /// The component of the plane.
    pub fn get_component(&self) -> (r: PlanarImageComponent)
        ensures
            r == self.component(),
    {
        self.1
    }

    /// Length in bytes of the plane's data: its stride times its height.
    pub fn len(&self) -> (r: u64)
        ensures
            r == plane_stride(self.picture()@, self.component()) as int * plane_height(
                self.picture()@,
                self.component(),
            ) as int,
    {
        let (stride, height) = self.0.plane_data_geometry(self.1);
        proof {
            assert(stride as int * height as int <= u32::MAX as int * u32::MAX as int)
                by (nonlinear_arith)
                requires
                    stride <= u32::MAX,
                    height <= u32::MAX,
            ;
        }
        stride as u64 * height as u64
    }
}

/// For a 4:2:0 frame the chroma planes have half the frame's height, rounded
/// up; for the other layouts they have the frame's height; the luma plane
/// always has it.
pub proof fn lemma_plane_height(f: FrameInfo, component: PlanarImageComponent)
    ensures
        component == PlanarImageComponent::Y ==> plane_height(f, component) == f.height as u32,
        component != PlanarImageComponent::Y && f.layout == PixelLayout::I420 ==> plane_height(
            f,
            component,
        ) as int == (f.height as u32 as int + 1) / 2,
        component != PlanarImageComponent::Y && f.layout != PixelLayout::I420 ==> plane_height(
            f,
            component,
        ) == f.height as u32,
{
}

} // verus!
