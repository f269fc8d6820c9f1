//! Tests for the pattern validators.

use pi_cam_capture::mock::{MockDevice, TestPattern};
use pi_cam_capture::traits::{CameraDevice, CameraError, CaptureStream, Format, FourCC, Frame};
use pi_cam_capture::validation::{
    colors_match, validate_color_bars, validate_frame_sequence, validate_gradient,
};

#[test]
fn test_validate_color_bars_success() {
    let mut device = MockDevice::new();
    let format = Format::new(640, 480, FourCC::yuyv());
    device.set_format(&format).expect("set_format failed");

    let stream = device.create_stream(1).expect("create_stream failed");
    let mut stream = stream.with_pattern(TestPattern::ColorBars);
    let frame = stream.next_frame().expect("next_frame failed");

    let result = validate_color_bars(&frame, &format);
    assert!(
        result.is_ok(),
        "Color bars validation should succeed: {result:?}"
    );
}

#[test]
fn test_validate_color_bars_wrong_pattern() {
    let mut device = MockDevice::new();
    let format = Format::new(640, 480, FourCC::yuyv());
    device.set_format(&format).expect("set_format failed");

    let stream = device.create_stream(1).expect("create_stream failed");
    let mut stream = stream.with_pattern(TestPattern::Gradient);
    let frame = stream.next_frame().expect("next_frame failed");

    let result = validate_color_bars(&frame, &format);
    assert!(
        result.is_err(),
        "Color bars validation should fail for gradient pattern"
    );
}

#[test]
fn test_validate_gradient_success() {
    let mut device = MockDevice::new();
    let format = Format::new(640, 480, FourCC::yuyv());
    device.set_format(&format).expect("set_format failed");

    let stream = device.create_stream(1).expect("create_stream failed");
    let mut stream = stream.with_pattern(TestPattern::Gradient);
    let frame = stream.next_frame().expect("next_frame failed");

    let result = validate_gradient(&frame, &format);
    assert!(
        result.is_ok(),
        "Gradient validation should succeed: {result:?}"
    );
}

#[test]
fn test_validate_gradient_wrong_pattern() {
    let mut device = MockDevice::new();
    let format = Format::new(640, 480, FourCC::yuyv());
    device.set_format(&format).expect("set_format failed");

    let stream = device.create_stream(1).expect("create_stream failed");
    let mut stream = stream.with_pattern(TestPattern::Solid(128, 128, 128));
    let frame = stream.next_frame().expect("next_frame failed");

    let result = validate_gradient(&frame, &format);
    assert!(
        result.is_err(),
        "Gradient validation should fail for solid pattern"
    );
}

#[test]
fn test_gradient_frame_fails_color_bars() {
    let mut device = MockDevice::new();
    let format = Format::new(640, 480, FourCC::yuyv());
    device.set_format(&format).expect("set_format failed");

    let stream = device.create_stream(1).expect("create_stream failed");
    let mut stream = stream.with_pattern(TestPattern::ColorBars);
    let frame = stream.next_frame().expect("next_frame failed");

    let result = validate_gradient(&frame, &format);
    assert!(
        result.is_err(),
        "Gradient validation should fail for color bars"
    );
}

#[test]
fn test_validator_failure_is_stream_error() {
    let mut device = MockDevice::new();
    let format = Format::new(640, 480, FourCC::yuyv());
    device.set_format(&format).expect("set_format failed");

    let stream = device.create_stream(1).expect("create_stream failed");
    let mut stream = stream.with_pattern(TestPattern::Solid(128, 128, 128));
    let frame = stream.next_frame().expect("next_frame failed");

    let result = validate_gradient(&frame, &format);
    assert!(matches!(result, Err(CameraError::StreamError(_))));
}

#[test]
fn test_validate_frame_sequence_success() {
    let mut device = MockDevice::new();
    let mut stream = device.create_stream(1).expect("create_stream failed");

    let mut frames: Vec<Frame> = Vec::new();
    for _ in 0..5 {
        frames.push(stream.next_frame().expect("next_frame failed"));
    }

    let result = validate_frame_sequence(&frames);
    assert!(
        result.is_ok(),
        "Frame sequence validation should succeed: {result:?}"
    );
}

#[test]
fn test_validate_frame_sequence_empty() {
    let frames: Vec<Frame> = vec![];
    let result = validate_frame_sequence(&frames);
    assert!(
        result.is_err(),
        "Frame sequence validation should fail for empty sequence"
    );
}

#[test]
fn test_validate_frame_sequence_with_gap() {
    let mut device = MockDevice::new();
    let mut stream = device.create_stream(1).expect("create_stream failed");

    let mut frames = vec![
        stream.next_frame().expect("next_frame failed"),
        stream.next_frame().expect("next_frame failed"),
    ];

    // Skip a frame to create a gap
    let _ = stream.next_frame().expect("next_frame failed");

    frames.push(stream.next_frame().expect("next_frame failed"));

    let result = validate_frame_sequence(&frames);
    assert!(
        result.is_err(),
        "Frame sequence validation should fail with gap"
    );
}

#[test]
fn test_validate_frame_sequence_identifies_gap() {
    let mut device = MockDevice::new();
    let mut stream = device.create_stream(1).expect("create_stream failed");

    let mut frames: Vec<Frame> = Vec::new();
    for _ in 0..5 {
        frames.push(stream.next_frame().expect("next_frame failed"));
    }
    // Sequences [0, 1, 3, 4]: remove the frame with sequence 2.
    frames.remove(2);

    match validate_frame_sequence(&frames) {
        Err(CameraError::StreamError(msg)) => {
            assert!(
                msg.contains("index 2") && msg.contains("expected 2"),
                "gap message should name index 2 and expected value 2: {msg}"
            );
        }
        other => panic!("expected a stream error for the gap, got {other:?}"),
    }
}

#[test]
fn test_colors_match_exact() {
    assert!(colors_match((100, 150, 200), (100, 150, 200), 10));
}

#[test]
fn test_colors_match_within_tolerance() {
    assert!(colors_match((100, 150, 200), (105, 155, 205), 10));
}

#[test]
fn test_colors_match_outside_tolerance() {
    assert!(!colors_match((100, 150, 200), (120, 150, 200), 10));
}

#[test]
fn test_validate_color_bars_small_width() {
    // Smallest width the color-bar round trip is stated for: each bar two
    // pixels wide.
    let mut device = MockDevice::new();
    let format = Format::new(16, 2, FourCC::yuyv());
    device.set_format(&format).expect("set_format failed");

    let stream = device.create_stream(1).expect("create_stream failed");
    let mut stream = stream.with_pattern(TestPattern::ColorBars);
    let frame = stream.next_frame().expect("next_frame failed");

    let result = validate_color_bars(&frame, &format);
    assert!(
        result.is_ok(),
        "Color bars validation should succeed at width 16: {result:?}"
    );
}
