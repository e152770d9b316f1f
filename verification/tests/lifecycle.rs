use playerone_sdk::camera::Camera;
use playerone_sdk::error::Error;
use playerone_sdk::properties::RawCameraProperties;
use playerone_sdk::sim::DriverCall;
use playerone_sdk::sim::SimDevice;
use playerone_sdk::sim::SimDriver;

fn raw_props(id: i32, max_w: i32, max_h: i32) -> RawCameraProperties {
    let mut name = [0u8; 256];
    name[0] = b'N';
    name[1] = b'o';
    name[2] = b'v';
    name[3] = b'a';
    let mut serial = [0u8; 64];
    serial[0] = b'S';
    serial[1] = b'0' + (id % 10) as u8;
    RawCameraProperties {
        camera_model_name: name,
        user_custom_id: [0u8; 16],
        camera_id: id,
        max_width: max_w,
        max_height: max_h,
        bit_depth: 12,
        is_color_camera: 1,
        is_has_st4_port: 0,
        is_has_cooler: 0,
        is_usb3_speed: 1,
        bayer_pattern: 0,
        pixel_size_bits: 2.9f64.to_bits(),
        serial_number: serial,
        sensor_model_name: [0u8; 32],
        local_path: [0u8; 256],
        bins: [1, 2, 4, 0, 0, 0, 0, 0],
        img_formats: [0, 1, 2, 3, -1, -1, -1, -1],
        is_support_hard_bin: 1,
        product_id: 7,
    }
}

#[test]
fn enumeration_decodes_properties() {
    let mut drv = SimDriver::new(vec![SimDevice::new(raw_props(5, 1920, 1080))]);
    let descs = Camera::all_cameras(&mut drv);
    assert_eq!(descs.len(), 1);
    let p = descs[0].properties();
    assert_eq!(descs[0].camera_id(), 5);
    assert_eq!(p.camera_model_name, "Nova");
    assert_eq!(p.serial_number, "S5");
    assert_eq!(p.max_width, 1920);
    assert_eq!(p.max_height, 1080);
    assert_eq!(p.bit_depth, 12);
    assert!(p.is_color_camera);
    assert!(!p.is_has_cooler);
    assert_eq!(p.bins, vec![1, 2, 4]);
    assert_eq!(p.img_formats.len(), 4);
    assert_eq!(f64::from_bits(p.pixel_size_bits), 2.9);
    assert_eq!(p.product_id, 7);
}

#[test]
fn enumeration_skips_failing_index_preserving_order() {
    let mut flaky = SimDevice::new(raw_props(11, 640, 480));
    flaky.probe_status = 6;
    let devs = vec![
        SimDevice::new(raw_props(10, 640, 480)),
        flaky,
        SimDevice::new(raw_props(12, 640, 480)),
    ];
    let mut drv = SimDriver::new(devs);
    let descs = Camera::all_cameras(&mut drv);
    assert_eq!(descs.len(), 2);
    assert_eq!(descs[0].camera_id(), 10);
    assert_eq!(descs[1].camera_id(), 12);
}

#[test]
fn open_then_close_then_reopen_succeeds() {
    let mut drv = SimDriver::new(vec![SimDevice::new(raw_props(3, 640, 480))]);
    let descs = Camera::all_cameras(&mut drv);
    let mut cam = descs.into_iter().next().unwrap().open(&mut drv).unwrap();
    assert_eq!(cam.close(&mut drv), Ok(()));
    let descs2 = Camera::all_cameras(&mut drv);
    let second = descs2.into_iter().next().unwrap().open(&mut drv);
    assert!(second.is_ok());
}

#[test]
fn close_twice_succeeds_both_times() {
    let mut drv = SimDriver::new(vec![SimDevice::new(raw_props(3, 640, 480))]);
    let descs = Camera::all_cameras(&mut drv);
    let mut cam = descs.into_iter().next().unwrap().open(&mut drv).unwrap();
    assert_eq!(cam.close(&mut drv), Ok(()));
    let calls_after_first = drv.calls.len();
    assert_eq!(cam.close(&mut drv), Ok(()));
    // the second close is a local no-op: no further driver call
    assert_eq!(drv.calls.len(), calls_after_first);
}

#[test]
fn failed_initialize_closes_the_device_again() {
    let mut dev = SimDevice::new(raw_props(8, 640, 480));
    dev.init_status = 16;
    let mut drv = SimDriver::new(vec![dev]);
    let descs = Camera::all_cameras(&mut drv);
    let r = descs.into_iter().next().unwrap().open(&mut drv);
    assert_eq!(r.err(), Some(Error::OperationFailed));
    let n = drv.calls.len();
    assert_eq!(drv.calls[n - 3], DriverCall::OpenCamera(8));
    assert_eq!(drv.calls[n - 2], DriverCall::InitCamera(8));
    assert_eq!(drv.calls[n - 1], DriverCall::CloseCamera(8));
}

#[test]
fn operations_on_closed_device_fail_with_not_opened() {
    let mut drv = SimDriver::new(vec![SimDevice::new(raw_props(3, 640, 480))]);
    let descs = Camera::all_cameras(&mut drv);
    let mut cam = descs.into_iter().next().unwrap().open(&mut drv).unwrap();
    cam.close(&mut drv).unwrap();
    assert_eq!(cam.start_exposure(&mut drv), Err(Error::NotOpened));
    assert_eq!(cam.image_size(&mut drv), Err(Error::NotOpened));
}

#[test]
fn open_of_detached_identifier_fails() {
    let mut drv = SimDriver::new(vec![SimDevice::new(raw_props(3, 640, 480))]);
    let descs = Camera::all_cameras(&mut drv);
    // the device detaches between enumeration and open
    drv.devices.clear();
    let r = descs.into_iter().next().unwrap().open(&mut drv);
    assert_eq!(r.err(), Some(Error::InvalidCameraId));
}

#[test]
fn handle_reports_id_and_properties() {
    let mut drv = SimDriver::new(vec![SimDevice::new(raw_props(9, 800, 600))]);
    let descs = Camera::all_cameras(&mut drv);
    let cam = descs.into_iter().next().unwrap().open(&mut drv).unwrap();
    assert_eq!(cam.id(), 9);
    assert_eq!(cam.properties().max_width, 800);
    assert_eq!(cam.properties().max_height, 600);
}

#[test]
fn enumeration_with_no_devices_is_empty() {
    let mut drv = SimDriver::new(Vec::new());
    let descs = Camera::all_cameras(&mut drv);
    assert!(descs.is_empty());
    assert_eq!(drv.calls, vec![DriverCall::CameraCount]);
}
