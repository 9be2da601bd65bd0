use std::sync::Arc;

use dav1d::{PictureAllocation, PictureAllocator, PictureParameters};
use dav1d::{
    Data, DataProps, Decoder, DefaultAllocator, Error, ErrorCodes, FrameInfo, PixelLayout,
};

struct Counting;

impl PictureAllocator for Counting {
    type AllocatorData = usize;

    fn alloc_picture(&self, _p: &PictureParameters) -> Result<PictureAllocation<usize>, Error> {
        Err(Error::NotEnoughMemory)
    }

    fn release_picture(&self, _a: PictureAllocation<usize>) {}
}

fn codes() -> ErrorCodes {
    ErrorCodes { again: -11, inval: -22, nomem: -12, noprotoopt: -92 }
}

fn open() -> Decoder<DefaultAllocator> {
    Decoder::open(codes(), 0, None).unwrap()
}

fn frame(timestamp: Option<i64>) -> FrameInfo {
    FrameInfo {
        width: 320,
        height: 240,
        layout: PixelLayout::I420,
        bpc: 8,
        stride: [384, 192],
        props: DataProps::new(None, timestamp, None),
        hbd: 0,
        pri: 2,
        trc: 2,
        mtrx: 2,
        color_range: 0,
        chr: 0,
        content_light: None,
        mastering_display: None,
    }
}

#[test]
fn open_translates_failure() {
    assert!(matches!(
        Decoder::<DefaultAllocator>::open(codes(), -22, None),
        Err(Error::InvalidArgument)
    ));
    assert!(matches!(
        Decoder::<DefaultAllocator>::open(codes(), -1, None),
        Err(Error::UnknownError(-1))
    ));
    let d = open();
    assert!(!d.is_backpressured());
    assert!(d.allocator().is_none());
    assert_eq!(d.error_codes(), codes());
}

#[test]
fn send_data_wraps_with_metadata() {
    let d = open();
    let data = d.send_data(100, Some(3), Some(133), None);
    assert_eq!(data, Data { len: 100, sz: 100, m: DataProps { timestamp: 133, duration: 0, offset: 3 } });
    let data = d.send_data(5, None, None, None);
    assert_eq!(data.m.timestamp, i64::MIN);
    assert_eq!(data.m.offset, -1);
}

#[test]
fn full_consumption_succeeds() {
    let mut d = open();
    let mut data = d.send_data(100, None, Some(0), None);
    data.set_remaining(0);
    assert_eq!(d.data_sent(data, 0), Ok(()));
    assert!(!d.is_backpressured());
}

#[test]
fn backpressure_keeps_the_remainder() {
    let mut d = open();
    let mut data = d.send_data(100, Some(0), Some(33), None);
    // The engine takes 40 bytes and asks for pictures to be drained first.
    data.set_remaining(60);
    assert_eq!(d.data_sent(data, 0), Err(Error::Again));
    assert_eq!(d.pending_data().unwrap().sz, 60);
    assert_eq!(d.pending_data().unwrap().len, 100);
    // Resubmission: the engine answers with the transient code, taking nothing.
    let data = d.send_pending_data().unwrap();
    assert!(!d.is_backpressured());
    assert_eq!(d.data_sent(data, -11), Err(Error::Again));
    assert_eq!(d.pending_data().unwrap().sz, 60);
    // Then it takes 50 more, then the rest.
    let mut data = d.send_pending_data().unwrap();
    data.set_remaining(10);
    assert_eq!(d.data_sent(data, 0), Err(Error::Again));
    let mut data = d.send_pending_data().unwrap();
    data.set_remaining(0);
    assert_eq!(data.len - data.sz, 100);
    assert_eq!(d.data_sent(data, 0), Ok(()));
    assert!(d.send_pending_data().is_none());
}

#[test]
fn other_errors_drop_the_data() {
    let mut d = open();
    let data = d.send_data(10, None, None, None);
    assert_eq!(d.data_sent(data, -22), Err(Error::InvalidArgument));
    assert!(!d.is_backpressured());
    let data = d.send_data(10, None, None, None);
    assert_eq!(d.data_sent(data, -12), Err(Error::NotEnoughMemory));
    assert!(d.close().is_none());
}

#[test]
fn flush_discards_pending_data() {
    let mut d = open();
    let mut data = d.send_data(10, None, None, None);
    data.set_remaining(4);
    assert_eq!(d.data_sent(data, 0), Err(Error::Again));
    let dropped = d.flush().unwrap();
    assert_eq!(dropped.sz, 4);
    assert!(!d.is_backpressured());
    assert!(d.flush().is_none());
}

#[test]
fn close_hands_back_pending_data() {
    let mut d = open();
    let mut data = d.send_data(10, None, None, None);
    data.set_remaining(1);
    assert_eq!(d.data_sent(data, 0), Err(Error::Again));
    assert_eq!(d.close().unwrap().sz, 1);
}

#[test]
fn get_picture_results() {
    let d = open();
    assert_eq!(d.get_picture(-11, frame(None), None).err(), Some(Error::Again));
    let p = d.get_picture(0, frame(None), None).ok().unwrap();
    assert_eq!(p.timestamp(), None);
    let p = d.get_picture(0, frame(Some(133)), None).ok().unwrap();
    assert_eq!(p.timestamp(), Some(133));
    assert_eq!(p.width(), 320);
}

#[test]
fn pictures_of_an_allocator_carry_its_data() {
    let d = Decoder::open(codes(), 0, Some(Arc::new(Counting))).unwrap();
    assert!(d.allocator().is_some());
    let p = d.get_picture(0, frame(Some(0)), Some(Arc::new(4usize))).ok().unwrap();
    assert_eq!(p.allocator_data(), Some(&4));
    assert!(p.allocator().is_some());
    assert_eq!(p.clone().allocator_data(), Some(&4));
}
