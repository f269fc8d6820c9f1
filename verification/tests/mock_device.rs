//! Tests for the synthetic device and its pattern generator.

use pi_cam_capture::mock::{MockDevice, TestPattern, generate_test_frame};
use pi_cam_capture::traits::{CameraDevice, CaptureStream, Format, FourCC};

#[test]
fn test_mock_device_creation() {
    let device = MockDevice::new();
    assert_eq!(device.capabilities().driver, "mock");
    assert!(device.capabilities().can_capture);
    assert!(device.capabilities().can_stream);
}

#[test]
fn test_mock_device_format() {
    let mut device = MockDevice::new();
    let format = device.format().expect("format should succeed");
    assert_eq!(format.width, 640);
    assert_eq!(format.height, 480);

    let new_format = Format::new(1280, 720, FourCC::yuyv());
    let actual = device
        .set_format(&new_format)
        .expect("set_format should succeed");
    assert_eq!(actual.width, 1280);
    assert_eq!(actual.height, 720);
}

#[test]
fn test_mock_stream_capture() {
    let mut device = MockDevice::new();
    let mut stream = device
        .create_stream(4)
        .expect("create_stream should succeed");

    let frame1 = stream.next_frame().expect("next_frame should succeed");
    assert_eq!(frame1.metadata.sequence, 0);
    assert!(!frame1.data.is_empty());

    let frame2 = stream.next_frame().expect("next_frame should succeed");
    assert_eq!(frame2.metadata.sequence, 1);
}

#[test]
fn test_color_bars_pattern() {
    let format = Format::new(640, 480, FourCC::yuyv());
    let data = generate_test_frame(&format, TestPattern::ColorBars);

    // Check frame size
    assert_eq!(data.len(), (640 * 480 * 2) as usize);

    // First bar should be white (Y=235)
    assert_eq!(data[0], 235);
}

#[test]
fn test_gradient_pattern() {
    let format = Format::new(640, 480, FourCC::yuyv());
    let data = generate_test_frame(&format, TestPattern::Gradient);

    // Left edge should be dark
    assert!(data[0] < 10);

    // Right edge should be bright (check last row, last pixel)
    let last_row_start = (479 * 640 * 2) as usize;
    let last_pixel_y = data[last_row_start + 638 * 2];
    assert!(last_pixel_y > 200);
}

#[test]
fn test_solid_pattern() {
    let format = Format::new(64, 64, FourCC::yuyv());
    let data = generate_test_frame(&format, TestPattern::Solid(128, 64, 192));

    // All Y values should be 128
    assert_eq!(data[0], 128);
    assert_eq!(data[2], 128);

    // U should be 64, V should be 192
    assert_eq!(data[1], 64);
    assert_eq!(data[3], 192);
}

#[test]
fn test_gradient_luma_exact() {
    let format = Format::new(16, 1, FourCC::yuyv());
    let data = generate_test_frame(&format, TestPattern::Gradient);

    // Pair at column 8: luma floor(8 * 255 / 16) = 127, neutral chroma.
    assert_eq!(data[16], 127);
    assert_eq!(data[17], 128);
    assert_eq!(data[18], 127);
    assert_eq!(data[19], 128);
}

#[test]
fn test_frame_metadata_advances() {
    let mut device = MockDevice::new();
    let mut stream = device.create_stream(1).expect("create_stream failed");

    let frame1 = stream.next_frame().expect("next_frame failed");
    assert_eq!(frame1.metadata.sequence, 0);
    assert_eq!(frame1.metadata.timestamp, 0);
    assert_eq!(frame1.metadata.bytes_used, 640 * 480 * 2);

    let frame2 = stream.next_frame().expect("next_frame failed");
    assert_eq!(frame2.metadata.sequence, 1);
    assert_eq!(frame2.metadata.timestamp, 33);
}
