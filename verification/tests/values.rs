use playerone_sdk::config::ConfigKind;
use playerone_sdk::error::Error;
use playerone_sdk::properties::decode_bins_buffer;
use playerone_sdk::properties::decode_formats_buffer;
use playerone_sdk::text::decode_text_buffer;
use playerone_sdk::properties::BayerPattern;
use playerone_sdk::properties::ImageFormat;
use playerone_sdk::value::bool_to_vendor;
use playerone_sdk::value::vendor_to_bool;
use playerone_sdk::value::ConfigValue;
use playerone_sdk::value::RawValue;
use playerone_sdk::value::ValueType;

#[test]
fn bytes_per_pixel_fixed_mapping() {
    assert_eq!(ImageFormat::RAW8.bytes_per_pixel(), 1);
    assert_eq!(ImageFormat::RAW16.bytes_per_pixel(), 2);
    assert_eq!(ImageFormat::RGB24.bytes_per_pixel(), 3);
    assert_eq!(ImageFormat::MONO8.bytes_per_pixel(), 1);
}

#[test]
fn vendor_bool_round_trip_both_values() {
    assert_eq!(vendor_to_bool(bool_to_vendor(true)), true);
    assert_eq!(vendor_to_bool(bool_to_vendor(false)), false);
    assert_eq!(bool_to_vendor(true), 1);
    assert_eq!(bool_to_vendor(false), 0);
    assert_eq!(bool_to_vendor(vendor_to_bool(0)), 0);
    assert_eq!(bool_to_vendor(vendor_to_bool(1)), 1);
}

#[test]
fn raw_value_round_trips() {
    assert_eq!(RawValue::from_int(-5).as_int(), -5);
    assert_eq!(RawValue::from_int(i64::MAX).as_int(), i64::MAX);
    assert_eq!(RawValue::from_int(i64::MIN).as_int(), i64::MIN);
    assert_eq!(RawValue::from_bool(true).as_bool(), true);
    assert_eq!(RawValue::from_bool(false).as_bool(), false);
    let bits = 1.25f64.to_bits();
    assert_eq!(RawValue::from_float_bits(bits).as_float_bits(), bits);
    assert_eq!(f64::from_bits(RawValue::from_float_bits(bits).as_float_bits()), 1.25);
}

#[test]
fn config_value_marshaling_round_trip() {
    let v = ConfigValue::Int(12345);
    assert_eq!(ConfigValue::from_raw(v.to_raw(), ValueType::Int), v);
    let b = ConfigValue::Bool(true);
    assert_eq!(ConfigValue::from_raw(b.to_raw(), ValueType::Bool), b);
    let f = ConfigValue::Float(2.5f64.to_bits());
    assert_eq!(ConfigValue::from_raw(f.to_raw(), ValueType::Float), f);
}

#[test]
fn config_value_kinds() {
    assert_eq!(ConfigValue::Int(1).kind(), ValueType::Int);
    assert_eq!(ConfigValue::Float(0).kind(), ValueType::Float);
    assert_eq!(ConfigValue::Bool(false).kind(), ValueType::Bool);
    assert_eq!(ConfigValue::Int(7).as_int(), 7);
    assert_eq!(ConfigValue::Bool(true).as_bool(), true);
    assert_eq!(ConfigValue::Float(9).as_float_bits(), 9);
}

#[test]
fn error_from_status_maps_every_code() {
    let expected = [
        (1, Error::InvalidIndex),
        (2, Error::InvalidCameraId),
        (3, Error::InvalidConfig),
        (4, Error::InvalidArgument),
        (5, Error::NotOpened),
        (6, Error::DeviceNotFound),
        (7, Error::OutOfBounds),
        (8, Error::ExposureFailed),
        (9, Error::Timeout),
        (10, Error::BufferSizeTooSmall),
        (11, Error::Exposing),
        (12, Error::NullPointer),
        (13, Error::ConfigNotWritable),
        (14, Error::ConfigNotReadable),
        (15, Error::AccessDenied),
        (16, Error::OperationFailed),
        (17, Error::MemoryAllocationFailed),
    ];
    for (code, kind) in expected {
        assert_eq!(Error::from_status(code), kind);
    }
}

#[test]
fn error_messages() {
    assert_eq!(Error::Timeout.message(), "timeout");
    assert_eq!(Error::OutOfBounds.message(), "out of bounds");
    assert_eq!(Error::NotOpened.message(), "camera is not opened");
    assert_eq!(Error::BufferSizeTooSmall.message(), "buffer size too small");
    assert_eq!(Error::ConfigNotWritable.message(), "config is not writable");
}

#[test]
fn config_kind_codes_round_trip() {
    let kinds = [
        ConfigKind::Exposure,
        ConfigKind::Gain,
        ConfigKind::HardwareBin,
        ConfigKind::Temperature,
        ConfigKind::WbR,
        ConfigKind::WbG,
        ConfigKind::WbB,
        ConfigKind::Offset,
        ConfigKind::AutoexpoMaxGain,
        ConfigKind::AutoexpoMaxExposure,
        ConfigKind::AutoexpoBrightness,
        ConfigKind::GuideNorth,
        ConfigKind::GuideSouth,
        ConfigKind::GuideEast,
        ConfigKind::GuideWest,
        ConfigKind::Egain,
        ConfigKind::CoolerPower,
        ConfigKind::TargetTemp,
        ConfigKind::Cooler,
        ConfigKind::Heater,
        ConfigKind::HeaterPower,
        ConfigKind::FanPower,
        ConfigKind::FlipNone,
        ConfigKind::FlipHori,
        ConfigKind::FlipVert,
        ConfigKind::FlipBoth,
        ConfigKind::FrameLimit,
        ConfigKind::Hqi,
        ConfigKind::UsbBandwidthLimit,
        ConfigKind::PixelBinSum,
        ConfigKind::MonoBin,
    ];
    for (i, kind) in kinds.iter().enumerate() {
        assert_eq!(kind.code(), i as i32);
        assert_eq!(ConfigKind::from_code(kind.code()), Some(*kind));
    }
    assert_eq!(ConfigKind::from_code(31), None);
    assert_eq!(ConfigKind::from_code(-1), None);
}

#[test]
fn config_kind_value_types_and_capabilities() {
    assert_eq!(ConfigKind::Exposure.value_type(), ValueType::Int);
    assert_eq!(ConfigKind::Temperature.value_type(), ValueType::Float);
    assert_eq!(ConfigKind::Egain.value_type(), ValueType::Float);
    assert_eq!(ConfigKind::Cooler.value_type(), ValueType::Bool);
    assert_eq!(ConfigKind::GuideNorth.value_type(), ValueType::Bool);
    assert_eq!(ConfigKind::FrameLimit.value_type(), ValueType::Int);
    assert!(!ConfigKind::Temperature.is_writable());
    assert!(!ConfigKind::Egain.is_writable());
    assert!(!ConfigKind::CoolerPower.is_writable());
    assert!(!ConfigKind::Heater.is_writable());
    assert!(ConfigKind::Gain.is_writable());
    assert!(ConfigKind::Exposure.supports_auto());
    assert!(ConfigKind::Gain.supports_auto());
    assert!(!ConfigKind::Offset.supports_auto());
}

#[test]
fn image_format_codes() {
    assert_eq!(ImageFormat::from_code(0), Some(ImageFormat::RAW8));
    assert_eq!(ImageFormat::from_code(1), Some(ImageFormat::RAW16));
    assert_eq!(ImageFormat::from_code(2), Some(ImageFormat::RGB24));
    assert_eq!(ImageFormat::from_code(3), Some(ImageFormat::MONO8));
    assert_eq!(ImageFormat::from_code(-1), None);
    assert_eq!(ImageFormat::RGB24.code(), 2);
}

#[test]
fn bayer_pattern_codes() {
    assert_eq!(BayerPattern::of_code(0), BayerPattern::RG);
    assert_eq!(BayerPattern::of_code(1), BayerPattern::BG);
    assert_eq!(BayerPattern::of_code(2), BayerPattern::GR);
    assert_eq!(BayerPattern::of_code(3), BayerPattern::GB);
    assert_eq!(BayerPattern::of_code(-1), BayerPattern::MONO);
}

#[test]
fn text_buffer_decoding() {
    let mut buf = [0u8; 16];
    buf[0] = b'M';
    buf[1] = b'a';
    buf[2] = b'r';
    buf[3] = b's';
    buf[5] = b'x';
    assert_eq!(decode_text_buffer(&buf), "Mars");
    let full = [b'z'; 4];
    assert_eq!(decode_text_buffer(&full), "zzzz");
}

#[test]
fn text_buffer_decoding_keeps_valid_utf8() {
    // a user-assigned label may legitimately hold multi-byte characters
    let mut buf = [0u8; 16];
    for (i, b) in "Caf\u{E9} \u{5BB6} \u{1F4F7}".bytes().enumerate() {
        buf[i] = b;
    }
    assert_eq!(decode_text_buffer(&buf), "Caf\u{E9} \u{5BB6} \u{1F4F7}");
    // reference behavior: identical to the standard lossy decoding
    let nul = buf.iter().position(|b| *b == 0).unwrap();
    assert_eq!(
        decode_text_buffer(&buf),
        String::from_utf8_lossy(&buf[..nul]).as_ref()
    );
}

#[test]
fn text_buffer_decoding_replaces_invalid_subparts() {
    let cases: [&[u8]; 7] = [
        &[b'A', 0xFF, b'B'],              // invalid lead
        &[0xC3, 0x28],                    // lead then non-continuation
        &[0xC0, 0x80],                    // overlong two-byte encoding
        &[0xE0, 0x80, 0x80],              // overlong three-byte encoding
        &[0xED, 0xA0, 0x80],              // surrogate range
        &[b'a', 0xC3],                    // truncated at the terminator
        &[0xE0, 0xA0],                    // truncated after a valid pair
    ];
    for bytes in cases {
        let mut buf = [0u8; 8];
        for (i, b) in bytes.iter().enumerate() {
            buf[i] = *b;
        }
        assert_eq!(
            decode_text_buffer(&buf),
            String::from_utf8_lossy(&buf[..bytes.len()]).as_ref()
        );
    }
}

#[test]
fn bins_and_formats_decoding() {
    assert_eq!(decode_bins_buffer(&[1, 2, 4, 0, 0, 8, 0, 0]), vec![1u32, 2, 4]);
    assert_eq!(decode_bins_buffer(&[0; 8]), Vec::<u32>::new());
    assert_eq!(
        decode_formats_buffer(&[0, 1, -1, 2, -1, -1, -1, -1]),
        vec![ImageFormat::RAW8, ImageFormat::RAW16]
    );
    assert_eq!(
        decode_formats_buffer(&[3, 2, 1, 0, -1, -1, -1, -1]),
        vec![ImageFormat::MONO8, ImageFormat::RGB24, ImageFormat::RAW16, ImageFormat::RAW8]
    );
}
