//! Core traits and types for the camera capture abstraction.
//!
//! A `Format` describes the packed 4:2:2 (YUYV) byte layout: each 4-byte group
//! `[luma0, chroma_u, luma1, chroma_v]` encodes two horizontally adjacent
//! pixels, row-major, 2 bytes per pixel. `Frame::pixel_at` interprets that
//! layout and converts a sample to RGB with fixed-point BT.601 coefficients.

use vstd::prelude::*;

verus! {

/// Pixel format tag of four bytes (e.g. YUYV, MJPG, RGB3), compared by exact
/// byte equality.
#[derive(Debug, Clone, Copy, PartialEq, Eq)]
pub struct FourCC(pub [u8; 4]);

impl FourCC {
    /// Create a new `FourCC` from a 4-byte array.
    pub fn new(code: &[u8; 4]) -> (r: Self)
        ensures
            r.0 == *code,
    {
        FourCC(*code)
    }

    /// YUYV pixel format (4:2:2 packed), the tag `b"YUYV"`.
    pub fn yuyv() -> (r: Self)
        ensures
            r.0 == [89u8, 85u8, 89u8, 86u8],
    {
        FourCC([89u8, 85u8, 89u8, 86u8])
    }

    /// MJPG pixel format (Motion JPEG), the tag `b"MJPG"`.
    pub fn mjpg() -> (r: Self)
        ensures
            r.0 == [77u8, 74u8, 80u8, 71u8],
    {
        FourCC([77u8, 74u8, 80u8, 71u8])
    }

    /// RGB3 pixel format (24-bit RGB), the tag `b"RGB3"`.
    pub fn rgb3() -> (r: Self)
        ensures
            r.0 == [82u8, 71u8, 66u8, 51u8],
    {
        FourCC([82u8, 71u8, 66u8, 51u8])
    }
}

/// Video format specification.
#[derive(Debug, Clone, Copy, PartialEq, Eq)]
pub struct Format {
    /// Frame width in pixels.
    pub width: u32,
    /// Frame height in pixels.
    pub height: u32,
    /// Pixel format.
    pub fourcc: FourCC,
    /// Bytes per line (stride).
    pub stride: u32,
    /// Total frame size in bytes.
    pub size: u32,
}

impl Format {
    /// The stride and total size are derived from the dimensions for the
    /// packed 4:2:2 layout (2 bytes per pixel), never set independently.
    pub open spec fn wf(&self) -> bool {
        &&& self.stride == 2 * self.width
        &&& self.size == 2 * self.width * self.height
    }

    /// Create a new format specification. The derivation of `stride` and
    /// `size` is specific to 2-byte-per-pixel layouts such as YUYV.
    pub fn new(width: u32, height: u32, fourcc: FourCC) -> (r: Self)
        requires
            2 * width <= u32::MAX,
            2 * width * height <= u32::MAX,
        ensures
            r.width == width,
            r.height == height,
            r.fourcc == fourcc,
            r.stride == 2 * width,
            r.size == 2 * width * height,
            r.wf(),
    {
        let stride = width * 2;
        proof {
            assert(stride * height == 2 * width * height) by (nonlinear_arith)
                requires
                    stride == 2 * width,
            ;
        }
        let size = stride * height;
        Format { width, height, fourcc, stride, size }
    }
}

/// Device capability flags, a read-only snapshot taken at device-open time.
#[derive(Debug, Clone, Default)]
pub struct DeviceCapabilities {
    /// Driver name.
    pub driver: String,
    /// Card/device name.
    pub card: String,
    /// Bus information.
    pub bus_info: String,
    /// Whether the device can capture video.
    pub can_capture: bool,
    /// Whether the device supports streaming.
    pub can_stream: bool,
}

/// Metadata for a captured frame.
#[derive(Debug, Clone)]
pub struct FrameMetadata {
    /// Frame sequence number, monotonic per stream and starting at 0.
    pub sequence: u32,
    /// Capture timestamp, in milliseconds since the start of the stream.
    pub timestamp: u64,
    /// Actual bytes used in the frame buffer.
    pub bytes_used: u32,
}

/// A captured video frame, owned entirely by whoever received it.
#[derive(Debug, Clone)]
pub struct Frame {
    /// Raw frame data.
    pub data: Vec<u8>,
    /// Frame metadata.
    pub metadata: FrameMetadata,
}

/// Clamp a fixed-point channel value `num/den` to the range 0..=255,
/// truncating the quotient.
pub open spec fn scaled_to_u8(num: int, den: int) -> u8 {
    if num < 0 {
        0u8
    } else if num / den > 255 {
        255u8
    } else {
        (num / den) as u8
    }
}

/// ITU-R BT.601 luma/chroma to RGB conversion in fixed-point arithmetic:
/// `r = y + 1.402 (v-128)`, `g = y - 0.34414 (u-128) - 0.71414 (v-128)`,
/// `b = y + 1.772 (u-128)`, each channel clamped to 0..=255 and truncated.
/// Kept opaque: proofs that need the formula reveal it explicitly.
#[verifier::opaque]
pub open spec fn yuv_to_rgb_spec(y: u8, u: u8, v: u8) -> (u8, u8, u8) {
    (
        scaled_to_u8(1000 * y + 1402 * (v - 128), 1000),
        scaled_to_u8(100000 * y - 34414 * (u - 128) - 71414 * (v - 128), 100000),
        scaled_to_u8(1000 * y + 1772 * (u - 128), 1000),
    )
}

fn scaled_channel(num: i64, den: u64) -> (r: u8)
    requires
        0 < den,
        num <= u64::MAX,
    ensures
        r == scaled_to_u8(num as int, den as int),
{
    if num < 0 {
        0
    } else {
        let q: u64 = (num as u64) / den;
        if q > 255 {
            255
        } else {
            q as u8
        }
    }
}

/// Convert luma/chroma values to RGB using the BT.601 formula. The result is
/// display-quality, not bit-exact against a real-valued conversion.
pub fn yuv_to_rgb(y: u8, u: u8, v: u8) -> (rgb: (u8, u8, u8))
    ensures
        rgb == yuv_to_rgb_spec(y, u, v),
{
    proof {
        reveal(yuv_to_rgb_spec);
    }
    let yl: i64 = y as i64;
    let ud: i64 = u as i64 - 128;
    let vd: i64 = v as i64 - 128;
    let r = scaled_channel(1000 * yl + 1402 * vd, 1000);
    let g = scaled_channel(100000 * yl - 34414 * ud - 71414 * vd, 100000);
    let b = scaled_channel(1000 * yl + 1772 * ud, 1000);
    (r, g, b)
}

/// Byte offset of the 4-byte group holding the pixel pair that contains
/// column `x`: the pair starts at the even column below `x`.
pub open spec fn pair_offset(x: int, y: int, width: int) -> int {
    2 * (y * width + (x - x % 2))
}

/// What `Frame::pixel_at` yields: `None` for an out-of-range query (a column
/// beyond the width, or a group that would run past the buffer), otherwise
/// the converted luma of the queried column with the pair's shared chroma.
pub open spec fn pixel_at_spec(data: Seq<u8>, x: int, y: int, width: int) -> Option<(u8, u8, u8)> {
    let off = pair_offset(x, y, width);
    if x >= width || off + 3 >= data.len() {
        None
    } else {
        let luma = if x % 2 == 0 {
            data[off]
        } else {
            data[off + 2]
        };
        Some(yuv_to_rgb_spec(luma, data[off + 1], data[off + 3]))
    }
}

impl Frame {
    /// Get RGB values for the pixel at the given coordinates, assuming the
    /// YUYV layout. For odd `x` the luma of the second pixel in the pair is
    /// used together with the pair's shared chroma. Out-of-range queries
    /// yield `None`, never a panic.
    pub fn pixel_at(&self, x: u32, y: u32, width: u32) -> (r: Option<(u8, u8, u8)>)
        ensures
            r == pixel_at_spec(self.data@, x as int, y as int, width as int),
    {
        if x >= width {
            return None;
        }
        let pair_x: u32 = x - x % 2;
        proof {
            assert((y as int) * (width as int) <= 0xffff_ffff_ffff_ffff) by (nonlinear_arith)
                requires
                    y <= u32::MAX,
                    width <= u32::MAX,
            ;
        }
        let off128: u128 = 2 * ((y as u128) * (width as u128) + (pair_x as u128));
        if off128 + 3 >= self.data.len() as u128 {
            return None;
        }
        let off: usize = off128 as usize;
        let luma = if x % 2 == 0 {
            self.data[off]
        } else {
            self.data[off + 2]
        };
        let u = self.data[off + 1];
        let v = self.data[off + 3];
        Some(yuv_to_rgb(luma, u, v))
    }
}

/// Error type for camera operations.
#[derive(Debug)]
pub enum CameraError {
    /// Device with the given index was not found.
    DeviceNotFound(u32),
    /// Failed to open a device.
    DeviceOpenFailed(String),
    /// The requested format is not supported.
    FormatNotSupported(Format),
    /// Error during streaming or validation, with a description.
    StreamError(String),
    /// Operation timed out.
    Timeout,
    /// I/O error, with a description.
    Io(String),
}

/// Abstraction over camera device operations. A hardware backend and the
/// synthetic generator implement the same negotiation and streaming contract,
/// so calling code is oblivious to which backend it holds.
pub trait CameraDevice: Sized {
    /// The stream type returned by `create_stream`.
    type Stream: CaptureStream;

    /// Get device capabilities.
    fn capabilities(&self) -> &DeviceCapabilities;

    /// Get the current format.
    fn format(&self) -> Result<Format, CameraError>;

    /// Set the capture format. The returned format is what the backend
    /// actually applied; it is authoritative and may differ from the request.
    fn set_format(&mut self, format: &Format) -> Result<Format, CameraError>;

    /// Create a capture stream with the given number of buffers. A fresh
    /// stream has produced no frames.
    fn create_stream(&mut self, buffer_count: u32) -> (r: Result<Self::Stream, CameraError>)
        ensures
            r matches Ok(s) ==> s.frames_emitted() == 0,
    ;
}

/// Abstraction over capture stream operations.
pub trait CaptureStream: Sized {
    /// How many frames this stream has produced so far.
    spec fn frames_emitted(&self) -> nat;

    /// Whether the stream is in a state that allows capturing another frame.
    spec fn ready(&self) -> bool;

    /// Capture the next frame from the stream. Sequence numbers count up
    /// from 0, one per successful capture.
    fn next_frame(&mut self) -> (r: Result<Frame, CameraError>)
        requires
            old(self).ready(),
        ensures
            r matches Ok(f) ==> f.metadata.sequence == old(self).frames_emitted()
                && final(self).frames_emitted() == old(self).frames_emitted() + 1,
            r matches Err(_) ==> final(self).frames_emitted() == old(self).frames_emitted(),
    ;
}

} // verus!
