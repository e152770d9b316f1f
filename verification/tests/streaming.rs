use playerone_sdk::acquire::FrameCounter;
use playerone_sdk::acquire::StreamEnd;
use playerone_sdk::camera::Camera;
use playerone_sdk::error::Error;
use playerone_sdk::error::STATUS_TIMEOUT;
use playerone_sdk::properties::RawCameraProperties;
use playerone_sdk::sim::DriverCall;
use playerone_sdk::sim::FrameOutcome;
use playerone_sdk::sim::SimDevice;
use playerone_sdk::sim::SimDriver;

fn raw_props(id: i32, max_w: i32, max_h: i32) -> RawCameraProperties {
    RawCameraProperties {
        camera_model_name: [0u8; 256],
        user_custom_id: [0u8; 16],
        camera_id: id,
        max_width: max_w,
        max_height: max_h,
        bit_depth: 12,
        is_color_camera: 0,
        is_has_st4_port: 0,
        is_has_cooler: 0,
        is_usb3_speed: 1,
        bayer_pattern: -1,
        pixel_size_bits: 0,
        serial_number: [0u8; 64],
        sensor_model_name: [0u8; 32],
        local_path: [0u8; 256],
        bins: [1, 2, 0, 0, 0, 0, 0, 0],
        img_formats: [0, 1, -1, -1, -1, -1, -1, -1],
        is_support_hard_bin: 0,
        product_id: 7,
    }
}

fn opened_camera_with_frames(frames: Vec<FrameOutcome>) -> (Camera, SimDriver) {
    let mut dev = SimDevice::new(raw_props(1, 100, 100));
    dev.frames = frames;
    let mut drv = SimDriver::new(vec![dev]);
    let descs = Camera::all_cameras(&mut drv);
    let cam = descs.into_iter().next().unwrap().open(&mut drv).unwrap();
    (cam, drv)
}

fn stop_count(drv: &SimDriver) -> usize {
    drv.calls.iter().filter(|c| matches!(c, DriverCall::StopExposure(_))).count()
}

#[test]
fn stream_three_frames_then_error_stops_exposure_once() {
    let (mut cam, mut drv) = opened_camera_with_frames(vec![
        FrameOutcome::Frame(7),
        FrameOutcome::Frame(8),
        FrameOutcome::Frame(9),
        FrameOutcome::Fail(STATUS_TIMEOUT),
    ]);
    let mut consumer = FrameCounter::new(None);
    let r = cam.stream(&mut drv, Some(500), &mut consumer, 1000);
    assert_eq!(r, Err(Error::Timeout));
    assert_eq!(consumer.frames_seen, 3);
    assert_eq!(stop_count(&drv), 1);
}

#[test]
fn stream_stops_when_the_consumer_says_so() {
    let (mut cam, mut drv) = opened_camera_with_frames(vec![
        FrameOutcome::Frame(1),
        FrameOutcome::Frame(2),
        FrameOutcome::Frame(3),
        FrameOutcome::Frame(4),
    ]);
    let mut consumer = FrameCounter::new(Some(2));
    let r = cam.stream(&mut drv, None, &mut consumer, 1000);
    assert_eq!(r, Ok(StreamEnd::Stopped));
    assert_eq!(consumer.frames_seen, 2);
    // stopped by the consumer, not by an error: no stop was issued
    assert_eq!(stop_count(&drv), 0);
}

#[test]
fn stream_respects_the_frame_budget() {
    let (mut cam, mut drv) = opened_camera_with_frames(vec![
        FrameOutcome::Frame(1),
        FrameOutcome::Frame(2),
        FrameOutcome::Frame(3),
    ]);
    let mut consumer = FrameCounter::new(None);
    let r = cam.stream(&mut drv, None, &mut consumer, 2);
    assert_eq!(r, Ok(StreamEnd::BudgetExhausted));
    assert_eq!(consumer.frames_seen, 2);
}

#[test]
fn stream_rejects_an_oversized_timeout_locally() {
    let (mut cam, mut drv) = opened_camera_with_frames(vec![FrameOutcome::Frame(1)]);
    let before = drv.calls.len();
    let mut consumer = FrameCounter::new(None);
    let r = cam.stream(&mut drv, Some(0x8000_0000), &mut consumer, 10);
    assert_eq!(r, Err(Error::OutOfBounds));
    assert_eq!(drv.calls.len(), before);
    assert_eq!(consumer.frames_seen, 0);
}

#[test]
fn create_image_buffer_matches_the_driver_minimum() {
    let (mut cam, mut drv) = opened_camera_with_frames(vec![FrameOutcome::Frame(5)]);
    cam.set_image_size(&mut drv, 40, 30).unwrap();
    cam.set_image_format(&mut drv, playerone_sdk::properties::ImageFormat::RAW16).unwrap();
    let buf = cam.create_image_buffer(&mut drv).unwrap();
    assert_eq!(buf.len(), 40 * 30 * 2);
    // a buffer of exactly this size satisfies the driver
    let mut buffer = buf;
    cam.start_exposure(&mut drv).unwrap();
    assert_eq!(cam.get_image_data(&mut drv, &mut buffer, Some(100)), Ok(()));
    assert!(buffer.iter().all(|b| *b == 5));
}

#[test]
fn capture_fills_the_buffer_and_always_stops() {
    let (mut cam, mut drv) = opened_camera_with_frames(vec![FrameOutcome::Frame(0xAB)]);
    let mut buffer = vec![0u8; 100 * 100];
    assert_eq!(cam.capture(&mut drv, &mut buffer, Some(250)), Ok(()));
    assert!(buffer.iter().all(|b| *b == 0xAB));
    assert_eq!(stop_count(&drv), 1);
}

#[test]
fn capture_with_too_small_a_buffer_reports_the_driver_error() {
    let (mut cam, mut drv) = opened_camera_with_frames(vec![FrameOutcome::Frame(1)]);
    let mut buffer = vec![0u8; 10];
    assert_eq!(cam.capture(&mut drv, &mut buffer, Some(250)), Err(Error::BufferSizeTooSmall));
    // the exposure was still stopped, defensively
    assert_eq!(stop_count(&drv), 1);
}

#[test]
fn image_ready_reflects_a_pending_frame() {
    let (mut cam, mut drv) = opened_camera_with_frames(vec![FrameOutcome::Frame(1)]);
    assert_eq!(cam.is_image_ready(&mut drv), Ok(false));
    cam.start_exposure(&mut drv).unwrap();
    assert_eq!(cam.is_image_ready(&mut drv), Ok(true));
    let mut buffer = vec![0u8; 100 * 100];
    cam.get_image_data(&mut drv, &mut buffer, None).unwrap();
    assert_eq!(cam.is_image_ready(&mut drv), Ok(false));
}

#[test]
fn retrieval_without_an_exposure_fails() {
    let (cam, mut drv) = opened_camera_with_frames(vec![FrameOutcome::Frame(1)]);
    let mut buffer = vec![0u8; 100 * 100];
    assert_eq!(
        cam.get_image_data(&mut drv, &mut buffer, Some(100)),
        Err(Error::ExposureFailed)
    );
}

#[test]
fn stream_with_a_zero_frame_budget_returns_at_once() {
    let (mut cam, mut drv) = opened_camera_with_frames(vec![FrameOutcome::Frame(1)]);
    let mut consumer = FrameCounter::new(None);
    assert_eq!(cam.stream(&mut drv, None, &mut consumer, 0), Ok(StreamEnd::BudgetExhausted));
    assert_eq!(consumer.frames_seen, 0);
}
