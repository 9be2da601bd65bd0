use dav1d::pixel::{ChromaLocation, ColorPrimaries, MatrixCoefficients, TransferCharacteristic, YUVRange};
use dav1d::{
    BitsPerComponent, ContentLightLevel, DataProps, DefaultAllocator, FrameInfo, Picture,
    PixelLayout, PlanarImageComponent,
};

fn frame(w: i32, h: i32, layout: PixelLayout) -> FrameInfo {
    FrameInfo {
        width: w,
        height: h,
        layout,
        bpc: 8,
        stride: [384, 192],
        props: DataProps::new(Some(2), Some(67), None),
        hbd: 0,
        pri: 1,
        trc: 1,
        mtrx: 1,
        color_range: 0,
        chr: 0,
        content_light: None,
        mastering_display: None,
    }
}

fn picture(f: FrameInfo) -> Picture<DefaultAllocator> {
    Picture::new(f, None, None)
}

#[test]
fn chroma_height_of_420_is_rounded_up_half() {
    for h in [1, 127, 128, 129, 240, 321] {
        let p = picture(frame(320, h, PixelLayout::I420));
        assert_eq!(p.plane_data_geometry(PlanarImageComponent::Y), (384, h as u32));
        let half = (h as u32 + 1) / 2;
        assert_eq!(p.plane_data_geometry(PlanarImageComponent::U), (192, half));
        assert_eq!(p.plane_data_geometry(PlanarImageComponent::V), (192, half));
    }
}

#[test]
fn chroma_height_of_other_layouts_is_full() {
    for layout in [PixelLayout::I400, PixelLayout::I422, PixelLayout::I444] {
        let p = picture(frame(320, 241, layout));
        assert_eq!(p.plane_data_geometry(PlanarImageComponent::U).1, 241);
        assert_eq!(p.plane_data_geometry(PlanarImageComponent::V).1, 241);
    }
}

#[test]
fn plane_length_is_stride_times_height() {
    let p = picture(frame(320, 240, PixelLayout::I420));
    assert_eq!(p.plane(PlanarImageComponent::Y).len(), 384 * 240);
    assert_eq!(p.plane(PlanarImageComponent::U).len(), 192 * 120);
    let v = p.plane(PlanarImageComponent::V);
    assert_eq!(v.clone().len(), 192 * 120);
    assert_eq!(v.get_component(), PlanarImageComponent::V);
    assert_eq!(v.get_picture().width(), 320);
}

#[test]
fn timestamp_sentinel() {
    let mut f = frame(320, 240, PixelLayout::I420);
    f.props = DataProps::new(None, None, None);
    let p = picture(f);
    assert_eq!(p.timestamp(), None);
    assert_eq!(p.duration(), 0);
    assert_eq!(p.offset(), -1);
    f.props = DataProps::new(Some(4), Some(133), Some(33));
    let p = picture(f);
    assert_eq!(p.timestamp(), Some(133));
    assert_eq!(p.duration(), 33);
    assert_eq!(p.offset(), 4);
}

#[test]
fn picture_accessors() {
    let mut f = frame(320, 240, PixelLayout::I420);
    f.content_light = Some(ContentLightLevel {
        max_content_light_level: 1000,
        max_frame_average_light_level: 400,
    });
    let p = picture(f);
    assert_eq!(p.width(), 320);
    assert_eq!(p.height(), 240);
    assert_eq!(p.bit_depth(), 8);
    assert_eq!(p.bits_per_component(), Some(BitsPerComponent(8)));
    assert_eq!(p.pixel_layout(), PixelLayout::I420);
    assert_eq!(p.stride(PlanarImageComponent::Y), 384);
    assert_eq!(p.stride(PlanarImageComponent::U), 192);
    assert_eq!(p.color_primaries(), ColorPrimaries::BT709);
    assert_eq!(p.transfer_characteristic(), TransferCharacteristic::BT1886);
    assert_eq!(p.matrix_coefficients(), MatrixCoefficients::BT709);
    assert_eq!(p.color_range(), YUVRange::Limited);
    assert_eq!(p.chroma_location(), ChromaLocation::Center);
    assert_eq!(p.content_light().unwrap().max_content_light_level, 1000);
    assert!(p.mastering_display().is_none());
    assert!(p.allocator_data().is_none());
    assert_eq!(p.clone().offset(), 2);
}

#[test]
fn bits_per_component_codes() {
    let mut f = frame(16, 16, PixelLayout::I444);
    for (hbd, bits) in [(0, Some(8)), (1, Some(10)), (2, Some(12)), (3, None)] {
        f.hbd = hbd;
        assert_eq!(picture(f).bits_per_component(), bits.map(BitsPerComponent));
    }
}

#[test]
fn colorimetry_unknown_codes_are_unspecified() {
    let mut f = frame(16, 16, PixelLayout::I420);
    f.pri = 6;
    f.trc = 13;
    f.mtrx = 0;
    f.color_range = 1;
    f.chr = 1;
    let p = picture(f);
    assert_eq!(p.color_primaries(), ColorPrimaries::BT470BG);
    assert_eq!(p.transfer_characteristic(), TransferCharacteristic::SRGB);
    assert_eq!(p.matrix_coefficients(), MatrixCoefficients::Identity);
    assert_eq!(p.color_range(), YUVRange::Full);
    assert_eq!(p.chroma_location(), ChromaLocation::Left);
    f.pri = 200;
    f.trc = 19;
    f.mtrx = 255;
    f.chr = 3;
    let p = picture(f);
    assert_eq!(p.color_primaries(), ColorPrimaries::Unspecified);
    assert_eq!(p.transfer_characteristic(), TransferCharacteristic::Unspecified);
    assert_eq!(p.matrix_coefficients(), MatrixCoefficients::Unspecified);
    assert_eq!(p.chroma_location(), ChromaLocation::Unspecified);
}

#[test]
fn layout_and_component_codes() {
    assert_eq!(PixelLayout::from_native(0), Some(PixelLayout::I400));
    assert_eq!(PixelLayout::from_native(3), Some(PixelLayout::I444));
    assert_eq!(PixelLayout::from_native(4), None);
    for i in 0..3usize {
        assert_eq!(usize::from(PlanarImageComponent::from_index(i)), i);
    }
}
