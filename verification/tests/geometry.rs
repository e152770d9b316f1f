use playerone_sdk::camera::Camera;
use playerone_sdk::camera::ROI;
use playerone_sdk::error::Error;
use playerone_sdk::properties::ImageFormat;
use playerone_sdk::properties::RawCameraProperties;
use playerone_sdk::sim::DriverCall;
use playerone_sdk::sim::SimDevice;
use playerone_sdk::sim::SimDriver;

fn raw_props(id: i32, max_w: i32, max_h: i32) -> RawCameraProperties {
    RawCameraProperties {
        camera_model_name: [0u8; 256],
        user_custom_id: [0u8; 16],
        camera_id: id,
        max_width: max_w,
        max_height: max_h,
        bit_depth: 12,
        is_color_camera: 1,
        is_has_st4_port: 0,
        is_has_cooler: 0,
        is_usb3_speed: 1,
        bayer_pattern: 0,
        pixel_size_bits: 0,
        serial_number: [0u8; 64],
        sensor_model_name: [0u8; 32],
        local_path: [0u8; 256],
        bins: [1, 2, 4, 0, 0, 0, 0, 0],
        img_formats: [0, 1, 2, 3, -1, -1, -1, -1],
        is_support_hard_bin: 1,
        product_id: 7,
    }
}

fn opened_camera(max_w: i32, max_h: i32) -> (Camera, SimDriver) {
    let mut drv = SimDriver::new(vec![SimDevice::new(raw_props(1, max_w, max_h))]);
    let descs = Camera::all_cameras(&mut drv);
    let cam = descs.into_iter().next().unwrap().open(&mut drv).unwrap();
    (cam, drv)
}

#[test]
fn oversize_image_size_fails_locally_without_driver_call() {
    let (mut cam, mut drv) = opened_camera(1024, 768);
    let before = drv.calls.len();
    assert_eq!(cam.set_image_size(&mut drv, 1025, 100), Err(Error::OutOfBounds));
    assert_eq!(cam.set_image_size(&mut drv, 100, 769), Err(Error::OutOfBounds));
    assert_eq!(drv.calls.len(), before);
}

#[test]
fn valid_image_size_reaches_the_driver() {
    let (mut cam, mut drv) = opened_camera(1024, 768);
    assert_eq!(cam.set_image_size(&mut drv, 320, 240), Ok(()));
    assert_eq!(*drv.calls.last().unwrap(), DriverCall::SetImageSize(1, 320, 240));
    assert_eq!(cam.image_size(&mut drv), Ok((320, 240)));
}

#[test]
fn unsupported_bin_fails_locally_without_driver_call() {
    let (mut cam, mut drv) = opened_camera(1024, 768);
    let before = drv.calls.len();
    assert_eq!(cam.set_bin(&mut drv, 3), Err(Error::OutOfBounds));
    assert_eq!(cam.set_bin(&mut drv, 0), Err(Error::OutOfBounds));
    assert_eq!(drv.calls.len(), before);
}

#[test]
fn supported_bin_rescales_geometry() {
    let (mut cam, mut drv) = opened_camera(1024, 768);
    cam.set_image_start_pos(&mut drv, 16, 16).unwrap();
    assert_eq!(cam.set_bin(&mut drv, 2), Ok(()));
    assert_eq!(cam.bin(&mut drv), Ok(2));
    // the driver rescaled: query geometry again rather than assume it
    assert_eq!(cam.image_size(&mut drv), Ok((512, 384)));
    assert_eq!(cam.image_start_pos(&mut drv), Ok((0, 0)));
}

#[test]
fn roi_round_trip() {
    let (mut cam, mut drv) = opened_camera(1024, 768);
    let roi = ROI { start_x: 8, start_y: 4, width: 100, height: 50 };
    assert_eq!(cam.set_roi(&mut drv, &roi), Ok(()));
    assert_eq!(cam.roi(&mut drv), Ok(roi));
}

#[test]
fn set_roi_quiesces_a_running_exposure() {
    let (mut cam, mut drv) = opened_camera(1024, 768);
    cam.start_exposure(&mut drv).unwrap();
    let roi = ROI { start_x: 0, start_y: 0, width: 64, height: 64 };
    assert_eq!(cam.set_roi(&mut drv, &roi), Ok(()));
    assert!(drv.calls.contains(&DriverCall::StopExposure(1)));
    assert_eq!(cam.image_size(&mut drv), Ok((64, 64)));
}

#[test]
fn direct_resize_while_exposing_is_refused_by_the_driver() {
    let (mut cam, mut drv) = opened_camera(1024, 768);
    cam.start_exposure(&mut drv).unwrap();
    assert_eq!(cam.set_image_size(&mut drv, 64, 64), Err(Error::Exposing));
}

#[test]
fn image_format_round_trip() {
    let (mut cam, mut drv) = opened_camera(1024, 768);
    assert_eq!(cam.image_format(&mut drv), Ok(ImageFormat::RAW8));
    assert_eq!(cam.set_image_format(&mut drv, ImageFormat::RAW16), Ok(()));
    assert_eq!(cam.image_format(&mut drv), Ok(ImageFormat::RAW16));
}

#[test]
fn negative_start_position_is_refused() {
    let (mut cam, mut drv) = opened_camera(1024, 768);
    assert_eq!(cam.set_image_start_pos(&mut drv, -1, 0), Err(Error::OutOfBounds));
}

#[test]
fn image_size_at_exactly_the_maxima_is_accepted() {
    let (mut cam, mut drv) = opened_camera(1024, 768);
    assert_eq!(cam.set_image_size(&mut drv, 1024, 768), Ok(()));
    assert_eq!(cam.image_size(&mut drv), Ok((1024, 768)));
}
