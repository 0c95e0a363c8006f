//! Camera capture management: device catalogue, capture session state machine,
//! pixel-format conversion to RGB and the single-slot frame hand-off.

pub mod catalog;
pub mod color;
pub mod convert;
pub mod dedup;
pub mod device;
pub mod frame;
pub mod session;
pub mod sink;

pub use catalog::{enumerate, unique_devices};
pub use color::yuv_to_rgb;
pub use convert::{
    create_image_from_buffer, image_from_decoded, needs_jpeg_decoder, renderable_image,
};
pub use dedup::remove_duplicates_by;
pub use device::{identity_key, DeviceDescriptor, DeviceIndex};
pub use frame::{PixelFormat, RawFrame, Resolution, RgbImage};
pub use session::{CameraManager, DeviceCommand, Phase, Setting, StreamSettings};
pub use sink::{FrameSink, Presentation};
