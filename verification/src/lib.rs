//! Camera capture abstraction with verified pattern generation and validation.
//!
//! The crate models video formats and frames for the packed 4:2:2 (YUYV) pixel
//! layout, converts luma/chroma samples to RGB, generates deterministic test
//! patterns, and validates that captured frames match those patterns.

pub mod laws;
pub mod mock;
pub mod traits;
pub mod validation;

pub use traits::{
    CameraDevice, CaptureStream, DeviceCapabilities, Format, FourCC, Frame, FrameMetadata,
};
pub use validation::{validate_color_bars, validate_frame_sequence, validate_gradient};
