use playerone_sdk::camera::Camera;
use playerone_sdk::config::AllConfigBounds;
use playerone_sdk::config::ConfigKind;
use playerone_sdk::config::OptionalConfigBounds;
use playerone_sdk::config::RawConfigAttributes;
use playerone_sdk::error::Error;
use playerone_sdk::properties::RawCameraProperties;
use playerone_sdk::sim::SimDevice;
use playerone_sdk::sim::SimDriver;
use playerone_sdk::value::RawValue;
use playerone_sdk::value::VALUE_TYPE_BOOL;
use playerone_sdk::value::VALUE_TYPE_FLOAT;
use playerone_sdk::value::VALUE_TYPE_INT;

fn raw_props(id: i32) -> RawCameraProperties {
    RawCameraProperties {
        camera_model_name: [0u8; 256],
        user_custom_id: [0u8; 16],
        camera_id: id,
        max_width: 640,
        max_height: 480,
        bit_depth: 12,
        is_color_camera: 1,
        is_has_st4_port: 1,
        is_has_cooler: 1,
        is_usb3_speed: 1,
        bayer_pattern: 0,
        pixel_size_bits: 0,
        serial_number: [0u8; 64],
        sensor_model_name: [0u8; 32],
        local_path: [0u8; 256],
        bins: [1, 2, 0, 0, 0, 0, 0, 0],
        img_formats: [0, 1, 2, 3, -1, -1, -1, -1],
        is_support_hard_bin: 1,
        product_id: 7,
    }
}

fn int_attr(kind: ConfigKind, min: i64, max: i64, default: i64, name: &str) -> RawConfigAttributes {
    let mut conf_name = [0u8; 64];
    for (i, b) in name.bytes().enumerate() {
        conf_name[i] = b;
    }
    RawConfigAttributes {
        is_support_auto: if kind.supports_auto() { 1 } else { 0 },
        is_writable: if kind.is_writable() { 1 } else { 0 },
        is_readable: 1,
        config_id: kind.code(),
        value_type: VALUE_TYPE_INT,
        max_value: RawValue::from_int(max),
        min_value: RawValue::from_int(min),
        default_value: RawValue::from_int(default),
        conf_name,
        description: [0u8; 128],
    }
}

fn bool_attr(kind: ConfigKind) -> RawConfigAttributes {
    RawConfigAttributes {
        is_support_auto: 0,
        is_writable: if kind.is_writable() { 1 } else { 0 },
        is_readable: 1,
        config_id: kind.code(),
        value_type: VALUE_TYPE_BOOL,
        max_value: RawValue::from_bool(true),
        min_value: RawValue::from_bool(false),
        default_value: RawValue::from_bool(false),
        conf_name: [0u8; 64],
        description: [0u8; 128],
    }
}

fn float_attr(kind: ConfigKind) -> RawConfigAttributes {
    RawConfigAttributes {
        is_support_auto: 0,
        is_writable: if kind.is_writable() { 1 } else { 0 },
        is_readable: 1,
        config_id: kind.code(),
        value_type: VALUE_TYPE_FLOAT,
        max_value: RawValue::from_float_bits(100.0f64.to_bits()),
        min_value: RawValue::from_float_bits(0.0f64.to_bits()),
        default_value: RawValue::from_float_bits(0.0f64.to_bits()),
        conf_name: [0u8; 64],
        description: [0u8; 128],
    }
}

fn mandatory_attrs() -> Vec<RawConfigAttributes> {
    vec![
        int_attr(ConfigKind::Exposure, 10, 2_000_000_000, 10_000, "Exposure"),
        int_attr(ConfigKind::Gain, 0, 400, 0, "Gain"),
        int_attr(ConfigKind::Offset, 0, 200, 10, "Offset"),
        int_attr(ConfigKind::AutoexpoMaxGain, 0, 400, 300, "AutoExpoMaxGain"),
        int_attr(ConfigKind::AutoexpoMaxExposure, 1, 5000, 100, "AutoExpoMaxExpoMS"),
        int_attr(ConfigKind::AutoexpoBrightness, 50, 200, 100, "AutoExpoBrightness"),
        int_attr(ConfigKind::FrameLimit, 0, 2000, 0, "FrameLimit"),
        int_attr(ConfigKind::UsbBandwidthLimit, 35, 100, 90, "USBBandwidthLimit"),
    ]
}

fn opened_camera_with_attrs(attrs: Vec<RawConfigAttributes>) -> (Camera, SimDriver) {
    let mut dev = SimDevice::new(raw_props(1));
    for a in attrs {
        let dft = a.default_value;
        dev.push_slot(a, dft, false);
    }
    let mut drv = SimDriver::new(vec![dev]);
    let descs = Camera::all_cameras(&mut drv);
    let cam = descs.into_iter().next().unwrap().open(&mut drv).unwrap();
    (cam, drv)
}

#[test]
fn config_bounds_with_all_mandatory_slots() {
    let mut attrs = mandatory_attrs();
    attrs.push(int_attr(ConfigKind::WbR, 0, 200, 100, "WB_R"));
    let (cam, mut drv) = opened_camera_with_attrs(attrs);
    let bounds = cam.config_bounds(&mut drv).unwrap();
    assert_eq!(bounds.exposure.min, 10);
    assert_eq!(bounds.exposure.max, 2_000_000_000);
    assert_eq!(bounds.exposure.default, 10_000);
    assert_eq!(bounds.exposure.conf_name, "Exposure");
    assert_eq!(bounds.gain.max, 400);
    assert_eq!(bounds.usb_bandwidth_limit.default, 90);
    let wb_r = bounds.wb_r.unwrap();
    assert_eq!(wb_r.default, 100);
    // absent hardware-dependent slots decode as absent, not as errors
    assert!(bounds.wb_g.is_none());
    assert!(bounds.cooler_power.is_none());
    assert!(bounds.fan_power.is_none());
}

#[test]
fn config_bounds_missing_mandatory_slot_fails_whole_snapshot() {
    let mut attrs = mandatory_attrs();
    attrs.remove(1);  // drop the gain slot
    let (cam, mut drv) = opened_camera_with_attrs(attrs);
    assert_eq!(cam.config_bounds(&mut drv).err(), Some(Error::InvalidConfig));
}

#[test]
fn optional_collection_keeps_exactly_what_is_present() {
    let attrs = vec![
        int_attr(ConfigKind::Gain, 0, 400, 0, "Gain"),
        int_attr(ConfigKind::CoolerPower, 0, 100, 0, "CoolerPower"),
    ];
    let collected = OptionalConfigBounds::from_attributes(&attrs);
    assert!(collected.gain.is_some());
    assert!(collected.cooler_power.is_some());
    assert!(collected.exposure.is_none());
    assert!(collected.heater_power.is_none());
}

#[test]
fn later_record_for_the_same_slot_wins() {
    let attrs = vec![
        int_attr(ConfigKind::Gain, 0, 100, 1, "Gain"),
        int_attr(ConfigKind::Gain, 0, 400, 2, "Gain"),
    ];
    let collected = OptionalConfigBounds::from_attributes(&attrs);
    assert_eq!(collected.gain.unwrap().default, 2);
}

#[test]
fn strict_snapshot_requires_every_slot() {
    let mut attrs = mandatory_attrs();
    assert_eq!(
        AllConfigBounds::from_attributes_strict(&attrs).err(),
        Some(Error::InvalidConfig)
    );
    attrs.push(int_attr(ConfigKind::WbR, 0, 200, 100, "WB_R"));
    attrs.push(int_attr(ConfigKind::WbG, 0, 200, 100, "WB_G"));
    attrs.push(int_attr(ConfigKind::WbB, 0, 200, 100, "WB_B"));
    attrs.push(int_attr(ConfigKind::CoolerPower, 0, 100, 0, "CoolerPower"));
    attrs.push(int_attr(ConfigKind::TargetTemp, -50, 50, 0, "TargetTemp"));
    attrs.push(int_attr(ConfigKind::HeaterPower, 0, 100, 10, "HeaterPower"));
    attrs.push(int_attr(ConfigKind::FanPower, 0, 100, 70, "FanPower"));
    let bounds = AllConfigBounds::from_attributes_strict(&attrs).unwrap();
    assert_eq!(bounds.target_temperature.unwrap().min, -50);
}

#[test]
fn set_and_get_typed_config_values() {
    let mut attrs = mandatory_attrs();
    attrs.push(bool_attr(ConfigKind::HardwareBin));
    let (mut cam, mut drv) = opened_camera_with_attrs(attrs);
    assert_eq!(cam.set_gain(&mut drv, 120, false), Ok(()));
    assert_eq!(cam.gain(&mut drv), Ok((120, false)));
    assert_eq!(cam.set_exposure(&mut drv, 5_000, true), Ok(()));
    assert_eq!(cam.exposure(&mut drv), Ok((5_000, true)));
    assert_eq!(cam.set_offset(&mut drv, 42), Ok(()));
    assert_eq!(cam.offset(&mut drv), Ok(42));
    assert_eq!(cam.set_hardware_bin(&mut drv, true), Ok(()));
    assert_eq!(cam.hardware_bin(&mut drv), Ok(true));
}

#[test]
fn float_slot_reads_back_its_bit_pattern() {
    let mut attrs = mandatory_attrs();
    attrs.push(float_attr(ConfigKind::Temperature));
    let (cam, mut drv) = opened_camera_with_attrs(attrs);
    let bits = cam.temperature(&mut drv).unwrap();
    assert_eq!(f64::from_bits(bits), 0.0);
}

#[test]
fn writing_a_read_only_slot_is_refused() {
    let mut attrs = mandatory_attrs();
    // the legacy heater state slot is read-only by its capability flags
    attrs.push(bool_attr(ConfigKind::Heater));
    let (mut cam, mut drv) = opened_camera_with_attrs(attrs);
    assert_eq!(cam.heater(&mut drv), Ok(false));
    assert_eq!(cam.set_heater(&mut drv, true), Err(Error::ConfigNotWritable));
}

#[test]
fn absent_slot_is_an_invalid_config_error() {
    let (mut cam, mut drv) = opened_camera_with_attrs(mandatory_attrs());
    assert_eq!(cam.set_wb_r(&mut drv, 10), Err(Error::InvalidConfig));
    assert_eq!(cam.wb_r(&mut drv), Err(Error::InvalidConfig));
}
