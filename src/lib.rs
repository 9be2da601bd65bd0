//! Safe, verified core of a binding to the dav1d AV1 decoder.
//!
//! The native engine does the decoding. This crate holds the logic that sits
//! around it: the mapping of native error codes, the decoder settings,
//! the send/retrieve backpressure state machine, the picture accessors, the
//! plane geometry that a picture allocator must honour, and the IVF container
//! framing used to feed the decoder.
pub mod allocator;
pub mod decoder;
pub mod driver;
pub mod error;
pub mod ivf;
pub mod picture;
pub mod pixel;
pub mod settings;

pub use allocator::{
    DefaultAllocator, PictureAllocation, PictureAllocator, PictureParameters, PlaneLayout,
    PICTURE_ALIGNMENT,
};
pub use decoder::{Data, Decoder};
pub use error::{Errno, Error, ErrorCodes};
pub use picture::{
    BitsPerComponent, ContentLightLevel, DataProps, FrameInfo, MasteringDisplay, Picture,
    PixelLayout, PlanarImageComponent, Plane,
};
pub use settings::{DecodeFrameType, InloopFilterType, NativeSettings, Settings, TryFromEnumError};
