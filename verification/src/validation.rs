//! Frame validation for test pattern verification.
//!
//! Each validator is a pure function of a frame (or a frame sequence) and a
//! format, and reports failure as a `CameraError::StreamError` carrying a
//! description of what was expected and observed. An unreadable sample is a
//! validation failure, never a panic.

use vstd::prelude::*;
use crate::traits::{CameraError, Format, Frame, pixel_at_spec};

verus! {

/// Per-channel tolerance for RGB color matching. Calibrated to absorb the
/// rounding of this crate's fixed-point YUV-to-RGB conversion; not a general
/// property of color bars.
pub const COLOR_TOLERANCE: i32 = 15;

/// Horizontal distance in pixels between gradient luminance samples.
pub const GRADIENT_SAMPLE_STEP: u32 = 10;

/// Largest tolerated luminance decrease between adjacent gradient samples,
/// scaled by 1000. Absorbs conversion rounding; calibrated like the color
/// tolerance above.
pub const LUMINANCE_SLACK_SCALED: i64 = 1000;

/// Smallest overall first-to-last luminance increase accepted as a gradient,
/// scaled by 1000. Rejects flat frames that are trivially monotonic.
pub const MIN_LUMINANCE_CHANGE_SCALED: i64 = 50000;

/// Expected RGB values for the 8 SMPTE-style color bars, in order: White,
/// Yellow, Cyan, Green, Magenta, Red, Blue, Black. These are the values the
/// fixed-point conversion yields for the generator's luma/chroma triples.
pub open spec fn expected_bar_rgb(i: int) -> (u8, u8, u8) {
    if i == 0 {
        (235u8, 235u8, 235u8)
    } else if i == 1 {
        (235u8, 235u8, 11u8)
    } else if i == 2 {
        (12u8, 236u8, 237u8)
    } else if i == 3 {
        (13u8, 237u8, 13u8)
    } else if i == 4 {
        (237u8, 13u8, 237u8)
    } else if i == 5 {
        (238u8, 14u8, 13u8)
    } else if i == 6 {
        (15u8, 15u8, 239u8)
    } else {
        (16u8, 16u8, 16u8)
    }
}

/// Absolute difference of two channel values.
pub open spec fn channel_diff(a: int, b: int) -> int {
    if a >= b {
        a - b
    } else {
        b - a
    }
}

/// The effective per-channel bound a tolerance argument denotes: a negative
/// tolerance wraps around to a bound no channel difference can exceed, so it
/// matches everything.
pub open spec fn tolerance_bound(tolerance: i32) -> int {
    if tolerance >= 0 {
        tolerance as int
    } else {
        tolerance + 0x1_0000_0000
    }
}

/// Two RGB colors match when every channel differs by at most the tolerance.
pub open spec fn colors_match_spec(actual: (u8, u8, u8), expected: (u8, u8, u8), tolerance: i32) -> bool {
    &&& channel_diff(actual.0 as int, expected.0 as int) <= tolerance_bound(tolerance)
    &&& channel_diff(actual.1 as int, expected.1 as int) <= tolerance_bound(tolerance)
    &&& channel_diff(actual.2 as int, expected.2 as int) <= tolerance_bound(tolerance)
}

/// Check whether two RGB colors match within a per-channel absolute-difference
/// tolerance.
pub fn colors_match(actual: (u8, u8, u8), expected: (u8, u8, u8), tolerance: i32) -> (r: bool)
    ensures
        r == colors_match_spec(actual, expected, tolerance),
{
    if tolerance < 0 {
        return true;
    }
    let tol = tolerance as u32;
    let r_diff: u32 = if actual.0 >= expected.0 {
        (actual.0 - expected.0) as u32
    } else {
        (expected.0 - actual.0) as u32
    };
    let g_diff: u32 = if actual.1 >= expected.1 {
        (actual.1 - expected.1) as u32
    } else {
        (expected.1 - actual.1) as u32
    };
    let b_diff: u32 = if actual.2 >= expected.2 {
        (actual.2 - expected.2) as u32
    } else {
        (expected.2 - actual.2) as u32
    };
    r_diff <= tol && g_diff <= tol && b_diff <= tol
}

fn expected_bar(i: usize) -> (r: (u8, u8, u8))
    requires
        i < 8,
    ensures
        r == expected_bar_rgb(i as int),
{
    if i == 0 {
        (235, 235, 235)
    } else if i == 1 {
        (235, 235, 11)
    } else if i == 2 {
        (12, 236, 237)
    } else if i == 3 {
        (13, 237, 13)
    } else if i == 4 {
        (237, 13, 237)
    } else if i == 5 {
        (238, 14, 13)
    } else if i == 6 {
        (15, 15, 239)
    } else {
        (16, 16, 16)
    }
}

/// The column the color-bar validator samples for bar `i`: the horizontal
/// center of that bar's column range.
pub open spec fn bar_sample_x(width: int, i: int) -> int {
    i * (width / 8) + (width / 8) / 2
}

/// Bar `i` validates: the sample at its center column and the frame's center
/// row is readable and matches the expected color within tolerance.
pub open spec fn bar_ok(data: Seq<u8>, fmt: Format, i: int) -> bool {
    match pixel_at_spec(data, bar_sample_x(fmt.width as int, i), fmt.height as int / 2, fmt.width as int) {
        Some(rgb) => colors_match_spec(rgb, expected_bar_rgb(i), COLOR_TOLERANCE),
        None => false,
    }
}

/// A frame passes color-bar validation when all 8 bars validate.
pub open spec fn color_bars_ok(data: Seq<u8>, fmt: Format) -> bool {
    forall|i: int| 0 <= i < 8 ==> bar_ok(data, fmt, i)
}

/// Relies on the std `format!` macro to render the failure description.
#[verifier::external_body]
fn pixel_message(x: u32, y: u32) -> String {
    format!("Failed to get pixel at ({x}, {y})")
}

/// Relies on the std `format!` macro to render the failure description.
#[verifier::external_body]
fn bar_mismatch_message(bar: usize, x: u32, y: u32, expected: (u8, u8, u8), actual: (u8, u8, u8)) -> String {
    format!("Color bar {bar} mismatch at ({x}, {y}): expected RGB{expected:?}, got RGB{actual:?}")
}

/// Validate that a frame contains the SMPTE-style color-bar pattern: for each
/// of the 8 bars, the pixel at the center of the bar's column range and the
/// center of the frame must match the expected color within tolerance.
pub fn validate_color_bars(frame: &Frame, format: &Format) -> (r: Result<(), CameraError>)
    ensures
        r is Ok <==> color_bars_ok(frame.data@, *format),
        r matches Err(e) ==> e matches CameraError::StreamError(_),
{
    let width = format.width;
    let height = format.height;
    let bar_width = width / 8;
    let center_y = height / 2;

    let mut bar_idx: usize = 0;
    while bar_idx < 8
        invariant
            bar_idx <= 8,
            width == format.width,
            height == format.height,
            bar_width == width / 8,
            center_y == height / 2,
            forall|j: int| 0 <= j < bar_idx ==> bar_ok(frame.data@, *format, j),
        decreases 8 - bar_idx,
    {
        proof {
            vstd::arithmetic::div_mod::lemma_fundamental_div_mod(width as int, 8);
            vstd::arithmetic::div_mod::lemma_fundamental_div_mod(bar_width as int, 2);
            vstd::arithmetic::mul::lemma_mul_inequality(bar_idx as int, 7, bar_width as int);
        }
        let sample_x: u32 = (bar_idx as u32) * bar_width + bar_width / 2;
        let expected = expected_bar(bar_idx);

        match frame.pixel_at(sample_x, center_y, width) {
            None => {
                assert(!bar_ok(frame.data@, *format, bar_idx as int));
                return Err(CameraError::StreamError(pixel_message(sample_x, center_y)));
            },
            Some(actual) => {
                if !colors_match(actual, expected, COLOR_TOLERANCE) {
                    assert(!bar_ok(frame.data@, *format, bar_idx as int));
                    return Err(CameraError::StreamError(bar_mismatch_message(
                        bar_idx,
                        sample_x,
                        center_y,
                        expected,
                        actual,
                    )));
                }
            },
        }
        bar_idx += 1;
    }
    Ok(())
}

/// Perceptual luminance of an RGB sample (`0.299 r + 0.587 g + 0.114 b`),
/// scaled by 1000 to stay in integer arithmetic.
pub open spec fn luminance_scaled(rgb: (u8, u8, u8)) -> int {
    299 * rgb.0 + 587 * rgb.1 + 114 * rgb.2
}

/// How many columns the gradient validator samples for a given width: one
/// every `GRADIENT_SAMPLE_STEP` columns, starting at column 0.
pub open spec fn gradient_sample_count(width: int) -> int {
    if width <= 0 {
        0
    } else {
        (width - 1) / (GRADIENT_SAMPLE_STEP as int) + 1
    }
}

/// Sample `t` of the gradient validator: the pixel at column `10 t` of the
/// frame's center row.
pub open spec fn gradient_sample(data: Seq<u8>, fmt: Format, t: int) -> Option<(u8, u8, u8)> {
    pixel_at_spec(data, GRADIENT_SAMPLE_STEP as int * t, fmt.height as int / 2, fmt.width as int)
}

/// Scaled luminance of gradient sample `t`.
pub open spec fn gradient_sample_lum(data: Seq<u8>, fmt: Format, t: int) -> int {
    luminance_scaled(gradient_sample(data, fmt, t).unwrap())
}

/// A frame passes gradient validation when every sample along the center row
/// is readable, the luminance never drops by more than the slack between
/// adjacent samples, and the overall first-to-last luminance change reaches
/// the minimum.
pub open spec fn gradient_ok(data: Seq<u8>, fmt: Format) -> bool {
    let n = gradient_sample_count(fmt.width as int);
    &&& forall|t: int| 0 <= t < n ==> gradient_sample(data, fmt, t) is Some
    &&& forall|t: int| 1 <= t < n
        ==> #[trigger] gradient_sample_lum(data, fmt, t) >= gradient_sample_lum(data, fmt, t - 1)
            - LUMINANCE_SLACK_SCALED
    &&& n > 0 ==> gradient_sample_lum(data, fmt, n - 1) - gradient_sample_lum(data, fmt, 0)
        >= MIN_LUMINANCE_CHANGE_SCALED
}

/// Relies on the std `format!` macro to render the failure description.
#[verifier::external_body]
fn gradient_drop_message(x: u32, lum: u32, prev: u32) -> String {
    format!(
        "Gradient not monotonically increasing at x={x}: luminance {lum} < previous {prev} (scaled by 1000)"
    )
}

/// Relies on the std `format!` macro to render the failure description.
#[verifier::external_body]
fn gradient_flat_message(change: i64) -> String {
    format!(
        "Insufficient luminance change for gradient: {change} (expected at least {MIN_LUMINANCE_CHANGE_SCALED}, scaled by 1000)"
    )
}

/// Validate that a frame contains a horizontal dark-to-light gradient:
/// luminance sampled along the center row must be non-decreasing within a
/// small slack and must rise significantly from the first sample to the last.
pub fn validate_gradient(frame: &Frame, format: &Format) -> (r: Result<(), CameraError>)
    ensures
        r is Ok <==> gradient_ok(frame.data@, *format),
        r matches Err(e) ==> e matches CameraError::StreamError(_),
{
    let width = format.width;
    let height = format.height;
    let center_y = height / 2;
    let ghost n = gradient_sample_count(width as int);

    let mut first_luminance: Option<u32> = None;
    let mut prev_luminance: Option<u32> = None;
    let mut x: u64 = 0;
    let ghost mut t: int = 0;

    while x < width as u64
        invariant
            width == format.width,
            height == format.height,
            center_y == height / 2,
            n == gradient_sample_count(width as int),
            x == 10 * t,
            0 <= t <= n,
            forall|s: int| 0 <= s < t ==> gradient_sample(frame.data@, *format, s) is Some,
            forall|s: int| 1 <= s < t
                ==> #[trigger] gradient_sample_lum(frame.data@, *format, s)
                    >= gradient_sample_lum(frame.data@, *format, s - 1) - LUMINANCE_SLACK_SCALED,
            t == 0 ==> first_luminance is None && prev_luminance is None,
            t > 0 ==> first_luminance is Some && first_luminance.unwrap()
                == gradient_sample_lum(frame.data@, *format, 0),
            t > 0 ==> prev_luminance is Some && prev_luminance.unwrap()
                == gradient_sample_lum(frame.data@, *format, t - 1),
        decreases n - t,
    {
        proof {
            assert(t < n) by {
                vstd::arithmetic::div_mod::lemma_div_is_ordered(10 * t, width as int - 1, 10);
                vstd::arithmetic::div_mod::lemma_div_multiples_vanish(t, 10);
            }
        }
        let xs: u32 = x as u32;
        match frame.pixel_at(xs, center_y, width) {
            None => {
                assert(gradient_sample(frame.data@, *format, t) is None);
                return Err(CameraError::StreamError(pixel_message(xs, center_y)));
            },
            Some(rgb) => {
                let lum: u32 = 299 * (rgb.0 as u32) + 587 * (rgb.1 as u32) + 114 * (rgb.2 as u32);
                assert(lum == gradient_sample_lum(frame.data@, *format, t));
                if first_luminance.is_none() {
                    first_luminance = Some(lum);
                }
                if let Some(prev) = prev_luminance {
                    if (lum as i64) < (prev as i64) - LUMINANCE_SLACK_SCALED {
                        return Err(CameraError::StreamError(gradient_drop_message(xs, lum, prev)));
                    }
                }
                prev_luminance = Some(lum);
            },
        }
        x = x + 10;
        proof {
            t = t + 1;
        }
    }

    proof {
        if t < n {
            vstd::arithmetic::div_mod::lemma_fundamental_div_mod(width as int - 1, 10);
            vstd::arithmetic::mul::lemma_mul_inequality(t, n - 1, 10);
            assert(false);
        }
    }

    if let (Some(first), Some(last)) = (first_luminance, prev_luminance) {
        let change: i64 = last as i64 - first as i64;
        if change < MIN_LUMINANCE_CHANGE_SCALED {
            return Err(CameraError::StreamError(gradient_flat_message(change)));
        }
    }
    Ok(())
}

/// A frame sequence is intact when it is non-empty and every adjacent pair of
/// frames has sequence numbers differing by exactly 1.
pub open spec fn sequence_ok(frames: Seq<Frame>) -> bool {
    &&& frames.len() > 0
    &&& forall|i: int| 1 <= i < frames.len()
        ==> (#[trigger] frames[i]).metadata.sequence == frames[i - 1].metadata.sequence + 1
}

/// Relies on the std `format!` macro to render the failure description.
#[verifier::external_body]
fn sequence_gap_message(index: usize, expected: u64, got: u32) -> String {
    format!("Frame sequence gap at index {index}: expected {expected}, got {got}")
}

/// Validate that a sequence of frames has incrementing sequence numbers:
/// fails on an empty sequence and on any adjacent pair whose numbers do not
/// differ by exactly 1 (detecting drops, gaps, and reordering).
pub fn validate_frame_sequence(frames: &[Frame]) -> (r: Result<(), CameraError>)
    ensures
        r is Ok <==> sequence_ok(frames@),
        r matches Err(e) ==> e matches CameraError::StreamError(_),
{
    if frames.len() == 0 {
        return Err(CameraError::StreamError("Cannot validate empty frame sequence".to_owned()));
    }

    let mut i: usize = 1;
    while i < frames.len()
        invariant
            1 <= i <= frames@.len(),
            forall|j: int| 1 <= j < i
                ==> (#[trigger] frames@[j]).metadata.sequence == frames@[j - 1].metadata.sequence
                    + 1,
        decreases frames@.len() - i,
    {
        let prev_seq = frames[i - 1].metadata.sequence;
        let curr_seq = frames[i].metadata.sequence;

        if prev_seq == u32::MAX || curr_seq != prev_seq + 1 {
            return Err(CameraError::StreamError(sequence_gap_message(
                i,
                prev_seq as u64 + 1,
                curr_seq,
            )));
        }
        i += 1;
    }
    Ok(())
}

} // verus!
