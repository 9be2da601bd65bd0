use dav1d::{
    PictureAllocation, PictureParameters, PixelLayout, PICTURE_ALIGNMENT,
};

fn params(w: u32, h: u32, layout: PixelLayout, bit_depth: usize) -> PictureParameters {
    PictureParameters { w, h, layout, bit_depth }
}

#[test]
fn plane_layout_covers_every_size() {
    let sizes = [1u32, 127, 128, 129, 320, 321];
    for layout in [PixelLayout::I400, PixelLayout::I420, PixelLayout::I422, PixelLayout::I444] {
        for bit_depth in [8usize, 10] {
            for w in sizes {
                for h in sizes {
                    let l = params(w, h, layout, bit_depth).plane_layout().unwrap();
                    let bytes = if bit_depth > 8 { 2 } else { 1 };
                    assert_eq!(l.luma_stride % PICTURE_ALIGNMENT as u64, 0);
                    assert!(l.luma_stride >= w as u64 * bytes);
                    assert!(l.luma_height >= h as u64);
                    assert_eq!(
                        l.luma_size,
                        l.luma_stride * l.luma_height + PICTURE_ALIGNMENT as u64
                    );
                    if layout == PixelLayout::I400 {
                        assert_eq!((l.chroma_stride, l.chroma_size), (0, 0));
                    } else {
                        assert_eq!(l.chroma_stride % PICTURE_ALIGNMENT as u64, 0);
                        assert_eq!(
                            l.chroma_size,
                            l.chroma_stride * l.chroma_height + PICTURE_ALIGNMENT as u64
                        );
                    }
                }
            }
        }
    }
}

#[test]
fn plane_layout_exact_values() {
    let l = params(129, 321, PixelLayout::I420, 8).plane_layout().unwrap();
    assert_eq!((l.luma_stride, l.luma_height), (256, 384));
    assert_eq!((l.chroma_stride, l.chroma_height), (128, 256));
    assert_eq!(l.luma_size, 256 * 384 + 64);
    assert_eq!(l.chroma_size, 128 * 256 + 64);
    let l = params(320, 240, PixelLayout::I420, 10).plane_layout().unwrap();
    assert_eq!((l.luma_stride, l.luma_height), (768, 256));
    assert_eq!((l.chroma_stride, l.chroma_height), (512, 128));
    let l = params(1, 1, PixelLayout::I444, 12).plane_layout().unwrap();
    assert_eq!((l.luma_stride, l.chroma_stride), (256, 256));
    let l = params(u32::MAX, u32::MAX, PixelLayout::I444, 16).plane_layout();
    assert!(l.is_none());
}

#[test]
fn allocation_fits_checks_alignment_and_strides() {
    let p = params(320, 240, PixelLayout::I420, 8);
    let good = PictureAllocation { data: [4096, 8192, 12288], stride: [384, 192], allocator_data: 7u32 };
    assert!(good.fits(&p));
    let misaligned = PictureAllocation { data: [4096 + 32, 8192, 12288], stride: [384, 192], allocator_data: 7u32 };
    assert!(!misaligned.fits(&p));
    let narrow = PictureAllocation { data: [4096, 8192, 12288], stride: [256, 192], allocator_data: 7u32 };
    assert!(!narrow.fits(&p));
    let no_chroma = PictureAllocation { data: [4096, 0, 0], stride: [384, 0], allocator_data: 7u32 };
    assert!(!no_chroma.fits(&p));
    assert!(no_chroma.fits(&params(320, 240, PixelLayout::I400, 8)));
}
