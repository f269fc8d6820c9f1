//! Tests for formats, pixel access, and the color conversion.

use pi_cam_capture::traits::{Format, FourCC, Frame, FrameMetadata, yuv_to_rgb};

fn frame_with_data(data: Vec<u8>) -> Frame {
    let bytes_used = data.len() as u32;
    Frame {
        data,
        metadata: FrameMetadata {
            sequence: 0,
            timestamp: 0,
            bytes_used,
        },
    }
}

/// Reference BT.601 conversion in floating point, truncated like the
/// fixed-point one.
fn reference_rgb(y: u8, u: u8, v: u8) -> (u8, u8, u8) {
    let yf = f32::from(y);
    let uf = f32::from(u) - 128.0;
    let vf = f32::from(v) - 128.0;
    let r = yf + 1.402 * vf;
    let g = yf - 0.34414 * uf - 0.71414 * vf;
    let b = yf + 1.772 * uf;
    let clamp = |val: f32| -> u8 {
        if val < 0.0 {
            0
        } else if val > 255.0 {
            255
        } else {
            val as u8
        }
    };
    (clamp(r), clamp(g), clamp(b))
}

fn assert_close(actual: (u8, u8, u8), reference: (u8, u8, u8)) {
    let close = |a: u8, b: u8| i16::from(a).abs_diff(i16::from(b)) <= 2;
    assert!(
        close(actual.0, reference.0) && close(actual.1, reference.1)
            && close(actual.2, reference.2),
        "conversion drifted: got {actual:?}, reference {reference:?}"
    );
}

#[test]
fn test_fourcc_new() {
    let code = FourCC::new(b"YUYV");
    assert_eq!(code, FourCC::yuyv());
    assert_eq!(code.0, *b"YUYV");
    assert_eq!(FourCC::mjpg().0, *b"MJPG");
    assert_eq!(FourCC::rgb3().0, *b"RGB3");
}

#[test]
fn test_format_new_derives_layout() {
    let format = Format::new(640, 480, FourCC::yuyv());
    assert_eq!(format.stride, 1280);
    assert_eq!(format.size, 614400);
    assert_eq!(format.width, 640);
    assert_eq!(format.height, 480);
    assert_eq!(format.fourcc, FourCC::yuyv());
}

#[test]
fn test_yuv_to_rgb_matches_reference() {
    let triples = [
        (235u8, 128u8, 128u8),
        (210, 16, 146),
        (170, 166, 16),
        (145, 54, 34),
        (106, 202, 222),
        (81, 90, 240),
        (41, 240, 110),
        (16, 128, 128),
        (100, 150, 200),
        (0, 0, 0),
        (255, 255, 255),
    ];
    for (y, u, v) in triples {
        assert_close(yuv_to_rgb(y, u, v), reference_rgb(y, u, v));
    }
}

#[test]
fn test_yuv_to_rgb_known_values() {
    // The generator's bar triples land exactly on the validator's expected
    // colors.
    assert_eq!(yuv_to_rgb(235, 128, 128), (235, 235, 235));
    assert_eq!(yuv_to_rgb(210, 16, 146), (235, 235, 11));
    assert_eq!(yuv_to_rgb(41, 240, 110), (15, 15, 239));
    assert_eq!(yuv_to_rgb(16, 128, 128), (16, 16, 16));
}

#[test]
fn test_pixel_at_out_of_bounds() {
    // One row of two pixels: a single 4-byte group.
    let frame = frame_with_data(vec![100, 50, 200, 60]);

    // Column beyond the width.
    assert_eq!(frame.pixel_at(2, 0, 2), None);
    assert_eq!(frame.pixel_at(100, 0, 2), None);

    // Row beyond the buffer.
    assert_eq!(frame.pixel_at(0, 1, 2), None);

    // Truncated buffer: the group would run past the end.
    let short = frame_with_data(vec![100, 50, 200]);
    assert_eq!(short.pixel_at(0, 0, 2), None);
}

#[test]
fn test_pixel_pair_shares_chroma() {
    let frame = frame_with_data(vec![100, 50, 200, 60]);

    let even = frame.pixel_at(0, 0, 2).expect("even pixel should be readable");
    let odd = frame.pixel_at(1, 0, 2).expect("odd pixel should be readable");

    // Same chroma pair, each pixel's own luma.
    assert_eq!(even, yuv_to_rgb(100, 50, 60));
    assert_eq!(odd, yuv_to_rgb(200, 50, 60));
    assert_ne!(even, odd);
}

#[test]
fn test_pixel_at_neutral_chroma_is_gray() {
    let frame = frame_with_data(vec![7, 128, 250, 128]);
    assert_eq!(frame.pixel_at(0, 0, 2), Some((7, 7, 7)));
    assert_eq!(frame.pixel_at(1, 0, 2), Some((250, 250, 250)));
}
