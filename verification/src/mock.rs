//! Synthetic device implementation for testing without hardware.
//!
//! The generator produces frames whose shape matches the negotiated `Format`
//! and whose bytes follow one of three deterministic patterns, so validators
//! and downstream consumers can be exercised without a camera.

use vstd::prelude::*;
use crate::traits::{
    CameraDevice, CameraError, CaptureStream, DeviceCapabilities, Format, FourCC, Frame,
    FrameMetadata,
};

verus! {

/// Nominal milliseconds between synthetic frames (roughly 30 fps).
pub const FRAME_INTERVAL_MS: u64 = 33;

/// Test pattern types for synthetic frame generation.
#[derive(Debug, Clone, Copy)]
pub enum TestPattern {
    /// SMPTE-style color bars pattern.
    ColorBars,
    /// Horizontal gradient from dark to light.
    Gradient,
    /// Solid color with the given luma and chroma values.
    Solid(u8, u8, u8),
}

/// Luma/chroma triples of the 8 color bars, in order: White, Yellow, Cyan,
/// Green, Magenta, Red, Blue, Black.
pub open spec fn bar_yuv(i: int) -> (u8, u8, u8) {
    if i == 0 {
        (235u8, 128u8, 128u8)
    } else if i == 1 {
        (210u8, 16u8, 146u8)
    } else if i == 2 {
        (170u8, 166u8, 16u8)
    } else if i == 3 {
        (145u8, 54u8, 34u8)
    } else if i == 4 {
        (106u8, 202u8, 222u8)
    } else if i == 5 {
        (81u8, 90u8, 240u8)
    } else if i == 6 {
        (41u8, 240u8, 110u8)
    } else {
        (16u8, 128u8, 128u8)
    }
}

/// Which of the 8 bars the column `x` falls in: the frame is divided into
/// bars of width `width / 8`, with remainder columns absorbed into the last
/// bar by clamping the index.
pub open spec fn bar_index(width: int, x: int) -> int {
    if x / (width / 8) < 7 {
        x / (width / 8)
    } else {
        7
    }
}

/// Gradient luma at column `x`: `floor(x * 255 / width)`, a dark-to-light
/// horizontal ramp.
pub open spec fn gradient_luma(width: int, x: int) -> u8 {
    ((x * 255) / width) as u8
}

/// The `(luma, chroma_u, chroma_v)` triple a pattern writes for the pixel
/// pair starting at even column `x`.
pub open spec fn pattern_pair(pat: TestPattern, width: int, x: int) -> (u8, u8, u8) {
    match pat {
        TestPattern::ColorBars => bar_yuv(bar_index(width, x)),
        TestPattern::Gradient => (gradient_luma(width, x), 128u8, 128u8),
        TestPattern::Solid(y, u, v) => (y, u, v),
    }
}

/// The 4-byte group of the pixel pair at row `y`, even column `x` holds the
/// pattern's luma in both luma slots and its chroma pair in the shared
/// chroma slots.
pub open spec fn pair_bytes_at(pat: TestPattern, data: Seq<u8>, width: int, y: int, x: int) -> bool {
    let off = 2 * (y * width + x);
    let pair = pattern_pair(pat, width, x);
    &&& data[off] == pair.0
    &&& data[off + 1] == pair.1
    &&& data[off + 2] == pair.0
    &&& data[off + 3] == pair.2
}

/// A buffer holds a full frame of a pattern: `height` rows of `2 * width`
/// bytes, every pixel pair's group as the pattern prescribes.
pub open spec fn frame_bytes_ok(pat: TestPattern, data: Seq<u8>, width: int, height: int) -> bool {
    &&& data.len() == 2 * width * height
    &&& forall|y: int, x: int|
        0 <= y < height && 0 <= x < width && x % 2 == 0 ==> #[trigger] pair_bytes_at(
            pat,
            data,
            width,
            y,
            x,
        )
}

fn bar_yuv_at(i: u32) -> (r: (u8, u8, u8))
    requires
        i <= 7,
    ensures
        r == bar_yuv(i as int),
{
    if i == 0 {
        (235, 128, 128)
    } else if i == 1 {
        (210, 16, 146)
    } else if i == 2 {
        (170, 166, 16)
    } else if i == 3 {
        (145, 54, 34)
    } else if i == 4 {
        (106, 202, 222)
    } else if i == 5 {
        (81, 90, 240)
    } else if i == 6 {
        (41, 240, 110)
    } else {
        (16, 128, 128)
    }
}

fn pattern_pair_at(pattern: TestPattern, width: u32, x: u32) -> (r: (u8, u8, u8))
    requires
        x < width,
        pattern matches TestPattern::ColorBars ==> width >= 8,
    ensures
        r == pattern_pair(pattern, width as int, x as int),
{
    match pattern {
        TestPattern::ColorBars => {
            let bar_width = width / 8;
            proof {
                vstd::arithmetic::div_mod::lemma_div_pos_is_pos(width as int, 8);
                vstd::arithmetic::div_mod::lemma_div_non_zero(width as int, 8);
            }
            let idx_raw = x / bar_width;
            let idx = if idx_raw < 7 {
                idx_raw
            } else {
                7
            };
            bar_yuv_at(idx)
        },
        TestPattern::Gradient => {
            proof {
                vstd::arithmetic::mul::lemma_mul_strict_inequality(x as int, width as int, 255);
                vstd::arithmetic::div_mod::lemma_multiply_divide_lt(
                    x as int * 255,
                    width as int,
                    255,
                );
            }
            let luma: u64 = (x as u64) * 255 / (width as u64);
            (luma as u8, 128, 128)
        },
        TestPattern::Solid(y, u, v) => (y, u, v),
    }
}

/// Generate one frame of test data for a format: `height` rows of
/// `2 * width` bytes following the pattern's packed 4:2:2 layout. The width
/// must be even (the layout stores pixels in pairs), and color bars need at
/// least 8 columns so each bar is non-empty.
pub fn generate_test_frame(format: &Format, pattern: TestPattern) -> (data: Vec<u8>)
    requires
        format.width % 2 == 0,
        pattern matches TestPattern::ColorBars ==> format.width >= 8,
        2 * format.width * format.height <= u32::MAX,
    ensures
        frame_bytes_ok(pattern, data@, format.width as int, format.height as int),
{
    let width = format.width;
    let height = format.height;
    let mut data: Vec<u8> = Vec::new();
    let mut y: u32 = 0;
    while y < height
        invariant
            width == format.width,
            height == format.height,
            width % 2 == 0,
            pattern matches TestPattern::ColorBars ==> width >= 8,
            2 * width * height <= u32::MAX,
            y <= height,
            data@.len() == 2 * ((y as int) * (width as int)),
            forall|yy: int, xx: int|
                0 <= yy < y && 0 <= xx < width && xx % 2 == 0 ==> #[trigger] pair_bytes_at(
                    pattern,
                    data@,
                    width as int,
                    yy,
                    xx,
                ),
        decreases height - y,
    {
        let mut x: u32 = 0;
        while x < width
            invariant
                width == format.width,
                height == format.height,
                width % 2 == 0,
                pattern matches TestPattern::ColorBars ==> width >= 8,
                2 * width * height <= u32::MAX,
                y < height,
                x <= width,
                x % 2 == 0,
                data@.len() == 2 * ((y as int) * (width as int)) + 2 * (x as int),
                forall|yy: int, xx: int|
                    0 <= yy < y && 0 <= xx < width && xx % 2 == 0 ==> #[trigger] pair_bytes_at(
                        pattern,
                        data@,
                        width as int,
                        yy,
                        xx,
                    ),
                forall|xx: int|
                    0 <= xx < x && xx % 2 == 0 ==> #[trigger] pair_bytes_at(
                        pattern,
                        data@,
                        width as int,
                        y as int,
                        xx,
                    ),
            decreases width - x,
        {
            let ghost data0 = data@;
            let (luma, chroma_u, chroma_v) = pattern_pair_at(pattern, width, x);
            data.push(luma);
            data.push(chroma_u);
            data.push(luma);
            data.push(chroma_v);
            proof {
                let w = width as int;
                let len0 = data0.len() as int;
                assert(data@[len0] == luma && data@[len0 + 1] == chroma_u && data@[len0 + 2]
                    == luma && data@[len0 + 3] == chroma_v);
                assert(pair_bytes_at(pattern, data@, w, y as int, x as int));
                assert forall|xx: int| 0 <= xx < x && xx % 2 == 0 implies #[trigger] pair_bytes_at(
                    pattern,
                    data@,
                    w,
                    y as int,
                    xx,
                ) by {
                    let off = 2 * (y as int * w + xx);
                    assert(pair_bytes_at(pattern, data0, w, y as int, xx));
                    assert(data@[off] == data0[off]);
                    assert(data@[off + 1] == data0[off + 1]);
                    assert(data@[off + 2] == data0[off + 2]);
                    assert(data@[off + 3] == data0[off + 3]);
                }
                assert forall|yy: int, xx: int|
                    0 <= yy < y && 0 <= xx < width && xx % 2 == 0 implies #[trigger] pair_bytes_at(
                    pattern,
                    data@,
                    w,
                    yy,
                    xx,
                ) by {
                    let off = 2 * (yy * w + xx);
                    vstd::arithmetic::mul::lemma_mul_nonnegative(yy, w);
                    vstd::arithmetic::mul::lemma_mul_inequality(yy + 1, y as int, w);
                    vstd::arithmetic::mul::lemma_mul_is_distributive_add_other_way(w, yy, 1);
                    assert(off + 3 < len0);
                    assert(pair_bytes_at(pattern, data0, w, yy, xx));
                    assert(data@[off] == data0[off]);
                    assert(data@[off + 1] == data0[off + 1]);
                    assert(data@[off + 2] == data0[off + 2]);
                    assert(data@[off + 3] == data0[off + 3]);
                }
            }
            x += 2;
        }
        proof {
            vstd::arithmetic::mul::lemma_mul_is_distributive_add_other_way(
                width as int,
                y as int,
                1,
            );
        }
        y += 1;
    }
    proof {
        vstd::arithmetic::mul::lemma_mul_is_commutative(height as int, width as int);
        vstd::arithmetic::mul::lemma_mul_is_associative(2, width as int, height as int);
    }
    data
}

/// Synthetic device for testing without hardware.
pub struct MockDevice {
    /// Capability snapshot this synthetic device reports.
    pub capabilities: DeviceCapabilities,
    /// Currently negotiated format.
    pub format: Format,
}

impl MockDevice {
    /// Create a new synthetic device with default settings: a 640x480 YUYV
    /// format and capture/streaming capabilities.
    pub fn new() -> (r: Self)
        ensures
            r.capabilities.driver@ == "mock"@,
            r.capabilities.card@ == "Mock Camera"@,
            r.capabilities.bus_info@ == "mock:0"@,
            r.capabilities.can_capture,
            r.capabilities.can_stream,
            r.format.width == 640,
            r.format.height == 480,
            r.format.fourcc.0 == [89u8, 85u8, 89u8, 86u8],
            r.format.wf(),
    {
        MockDevice {
            capabilities: DeviceCapabilities {
                driver: "mock".to_owned(),
                card: "Mock Camera".to_owned(),
                bus_info: "mock:0".to_owned(),
                can_capture: true,
                can_stream: true,
            },
            format: Format::new(640, 480, FourCC::yuyv()),
        }
    }

    /// Replace the format of this synthetic device.
    pub fn with_format(self, format: Format) -> (r: Self)
        ensures
            r.format == format,
            r.capabilities == self.capabilities,
    {
        MockDevice { capabilities: self.capabilities, format }
    }

    /// Replace the capabilities of this synthetic device.
    pub fn with_capabilities(self, capabilities: DeviceCapabilities) -> (r: Self)
        ensures
            r.capabilities == capabilities,
            r.format == self.format,
    {
        MockDevice { capabilities, format: self.format }
    }
}

impl Default for MockDevice {
    /// Same as `MockDevice::new`.
    fn default() -> (r: Self)
        ensures
            r.format.width == 640,
            r.format.height == 480,
            r.format.wf(),
            r.capabilities.can_capture,
            r.capabilities.can_stream,
    {
        MockDevice::new()
    }
}

/// Synthetic capture stream. It owns a snapshot of the device's format, the
/// selected pattern, and its own frame counter, so sequence numbers start at
/// 0 for each stream instance.
pub struct MockStream {
    /// Format the frames of this stream follow.
    pub format: Format,
    /// Pattern the frames of this stream are filled with.
    pub pattern: TestPattern,
    /// Frames produced so far; the next frame's sequence number.
    pub frame_count: u32,
}

impl MockStream {
    /// Select the test pattern for frame generation.
    pub fn with_pattern(self, pattern: TestPattern) -> (r: Self)
        ensures
            r.pattern == pattern,
            r.format == self.format,
            r.frame_count == self.frame_count,
    {
        MockStream { format: self.format, pattern, frame_count: self.frame_count }
    }
}

impl CameraDevice for MockDevice {
    type Stream = MockStream;

    fn capabilities(&self) -> (r: &DeviceCapabilities)
        ensures
            *r == self.capabilities,
    {
        &self.capabilities
    }

    fn format(&self) -> (r: Result<Format, CameraError>)
        ensures
            r matches Ok(f) && f == self.format,
    {
        Ok(self.format)
    }

    fn set_format(&mut self, format: &Format) -> (r: Result<Format, CameraError>)
        ensures
            final(self).format == *format,
            final(self).capabilities == old(self).capabilities,
            r matches Ok(f) && f == *format,
    {
        self.format = *format;
        Ok(self.format)
    }

    fn create_stream(&mut self, _buffer_count: u32) -> (r: Result<MockStream, CameraError>)
        ensures
            *final(self) == *old(self),
            r matches Ok(s) && s.format == old(self).format && s.pattern is ColorBars
                && s.frame_count == 0,
    {
        Ok(MockStream { format: self.format, pattern: TestPattern::ColorBars, frame_count: 0 })
    }
}

impl CaptureStream for MockStream {
    open spec fn frames_emitted(&self) -> nat {
        self.frame_count as nat
    }

    open spec fn ready(&self) -> bool {
        &&& self.frame_count < u32::MAX
        &&& self.format.width % 2 == 0
        &&& 2 * self.format.width * self.format.height <= u32::MAX
        &&& (self.pattern matches TestPattern::ColorBars ==> self.format.width >= 8)
    }

    fn next_frame(&mut self) -> (r: Result<Frame, CameraError>)
        ensures
            r is Ok,
            r matches Ok(f) ==> {
                &&& frame_bytes_ok(
                    old(self).pattern,
                    f.data@,
                    old(self).format.width as int,
                    old(self).format.height as int,
                )
                &&& f.metadata.sequence == old(self).frame_count
                &&& f.metadata.timestamp == FRAME_INTERVAL_MS * old(self).frame_count
                &&& f.metadata.bytes_used == old(self).format.size
            },
            final(self).format == old(self).format,
            final(self).pattern == old(self).pattern,
            final(self).frame_count == old(self).frame_count + 1,
    {
        let data = generate_test_frame(&self.format, self.pattern);
        let seq = self.frame_count;
        self.frame_count = seq + 1;
        Ok(
            Frame {
                data,
                metadata: FrameMetadata {
                    sequence: seq,
                    timestamp: FRAME_INTERVAL_MS * (seq as u64),
                    bytes_used: self.format.size,
                },
            },
        )
    }
}

} // verus!
