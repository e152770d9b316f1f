//! Device property snapshot: the raw fixed-size property record the
//! driver reports per device, and its decoding into a typed, immutable
//! descriptor (text buffers into strings, sentinel-terminated arrays
//! into bounded lists).

use vstd::prelude::*;

use crate::text::decode_text;
use crate::text::decode_text_buffer;
use crate::value::spec_vendor_to_bool;

verus! {

/// Sentinel ending the driver's supported-format list.
pub const FORMAT_END: i32 = -1;

/// Driver code for 8-bit raw frames.
pub const FORMAT_RAW8: i32 = 0;

/// Driver code for 16-bit raw frames.
pub const FORMAT_RAW16: i32 = 1;

/// Driver code for RGB888 frames.
pub const FORMAT_RGB24: i32 = 2;

/// Driver code for 8-bit monochrome frames.
pub const FORMAT_MONO8: i32 = 3;

/// Pixel format of retrieved frames; each carries a fixed number of
/// bytes per pixel used to size acquisition buffers.
#[derive(Debug, Copy, Clone, Hash, PartialEq, Eq, Structural)]
pub enum ImageFormat {
    /// 8bit raw data, 1 pixel 1 byte, value range [0, 255]
    RAW8,
    /// 16bit raw data, 1 pixel 2 bytes, value range [0, 65535]
    RAW16,
    /// RGB888 color data, 1 pixel 3 bytes (only color camera)
    RGB24,
    /// 8bit monochrome data from the Bayer filter array, 1 pixel 1 byte
    MONO8,
}

impl ImageFormat {
    /// The fixed bytes-per-pixel of this format.
    pub open spec fn bytes_per_pixel_spec(self) -> usize {
        match self {
            ImageFormat::RAW8 => 1,
            ImageFormat::RAW16 => 2,
            ImageFormat::RGB24 => 3,
            ImageFormat::MONO8 => 1,
        }
    }

    /// The fixed bytes-per-pixel of this format: 1 for RAW8, 2 for
    /// RAW16, 3 for RGB24, 1 for MONO8.
    pub fn bytes_per_pixel(&self) -> (r: usize)
        ensures
            r == self.bytes_per_pixel_spec(),
    {
        match self {
            ImageFormat::RAW8 => 1,
            ImageFormat::RAW16 => 2,
            ImageFormat::RGB24 => 3,
            ImageFormat::MONO8 => 1,
        }
    }

    /// The driver's code for this format.
    pub open spec fn code_spec(self) -> i32 {
        match self {
            ImageFormat::RAW8 => FORMAT_RAW8,
            ImageFormat::RAW16 => FORMAT_RAW16,
            ImageFormat::RGB24 => FORMAT_RGB24,
            ImageFormat::MONO8 => FORMAT_MONO8,
        }
    }

    /// The driver's code for this format.
    pub fn code(self) -> (r: i32)
        ensures
            r == self.code_spec(),
    {
        match self {
            ImageFormat::RAW8 => FORMAT_RAW8,
            ImageFormat::RAW16 => FORMAT_RAW16,
            ImageFormat::RGB24 => FORMAT_RGB24,
            ImageFormat::MONO8 => FORMAT_MONO8,
        }
    }

    /// The format a driver code stands for, if any.
    pub open spec fn spec_from_code(code: i32) -> Option<ImageFormat> {
        if code == FORMAT_RAW8 {
            Some(ImageFormat::RAW8)
        } else if code == FORMAT_RAW16 {
            Some(ImageFormat::RAW16)
        } else if code == FORMAT_RGB24 {
            Some(ImageFormat::RGB24)
        } else if code == FORMAT_MONO8 {
            Some(ImageFormat::MONO8)
        } else {
            None
        }
    }

    /// The format a driver code stands for, if any.
    pub fn from_code(code: i32) -> (r: Option<ImageFormat>)
        ensures
            r == Self::spec_from_code(code),
    {
        if code == FORMAT_RAW8 {
            Some(ImageFormat::RAW8)
        } else if code == FORMAT_RAW16 {
            Some(ImageFormat::RAW16)
        } else if code == FORMAT_RGB24 {
            Some(ImageFormat::RGB24)
        } else if code == FORMAT_MONO8 {
            Some(ImageFormat::MONO8)
        } else {
            None
        }
    }
}

/// Bytes per pixel of a driver format code; an unrecognized code counts
/// as one byte.
pub open spec fn bpp_of_code(code: i32) -> nat {
    match ImageFormat::spec_from_code(code) {
        Some(f) => f.bytes_per_pixel_spec() as nat,
        None => 1,
    }
}

/// How many bytes one frame of a given geometry and format occupies:
/// width times height times the format's fixed bytes-per-pixel.
pub open spec fn frame_bytes(width: i32, height: i32, format_code: i32) -> nat {
    (width as nat) * (height as nat) * bpp_of_code(format_code)
}

/// Driver code for a monochrome sensor.
pub const BAYER_MONO: i32 = -1;

/// Driver code for an RGGB color filter layout.
pub const BAYER_RG: i32 = 0;

/// Driver code for a BGGR color filter layout.
pub const BAYER_BG: i32 = 1;

/// Driver code for a GRBG color filter layout.
pub const BAYER_GR: i32 = 2;

/// Driver code for a GBRG color filter layout.
pub const BAYER_GB: i32 = 3;

/// The color filter array layout over a sensor's photosites.
#[derive(Debug, Copy, Clone, Hash, PartialEq, Eq, Structural)]
pub enum BayerPattern {
    /// Monochrome, the mono camera with this
    MONO,
    /// RGGB
    RG,
    /// BGGR
    BG,
    /// GRBG
    GR,
    /// GBRG
    GB,
}

impl BayerPattern {
    /// The pattern a driver code stands for; an unknown code reads as
    /// monochrome (the driver's contract only produces known codes).
    pub open spec fn spec_of_code(code: i32) -> BayerPattern {
        if code == BAYER_RG {
            BayerPattern::RG
        } else if code == BAYER_BG {
            BayerPattern::BG
        } else if code == BAYER_GR {
            BayerPattern::GR
        } else if code == BAYER_GB {
            BayerPattern::GB
        } else {
            BayerPattern::MONO
        }
    }

    /// The pattern a driver code stands for.
    pub fn of_code(code: i32) -> (r: BayerPattern)
        ensures
            r == Self::spec_of_code(code),
    {
        if code == BAYER_RG {
            BayerPattern::RG
        } else if code == BAYER_BG {
            BayerPattern::BG
        } else if code == BAYER_GR {
            BayerPattern::GR
        } else if code == BAYER_GB {
            BayerPattern::GB
        } else {
            BayerPattern::MONO
        }
    }
}

/// The list of supported binning factors a sentinel-terminated driver
/// array decodes to: the prefix of positive entries, in order.
pub open spec fn decode_bins(raw: Seq<i32>) -> Seq<u32>
    decreases raw.len(),
{
    if raw.len() == 0 || raw[0] <= 0 {
        Seq::empty()
    } else {
        seq![raw[0] as u32] + decode_bins(raw.skip(1))
    }
}

/// Every decoded binning factor is positive and fits an `i32`.
pub proof fn lemma_decode_bins_bounds(raw: Seq<i32>)
    ensures
        forall|i: int|
            0 <= i < decode_bins(raw).len() ==> 1 <= #[trigger] decode_bins(raw)[i]
                <= 0x7fff_ffff,
    decreases raw.len(),
{
    if raw.len() > 0 && raw[0] > 0 {
        lemma_decode_bins_bounds(raw.skip(1));
        assert forall|i: int| 0 <= i < decode_bins(raw).len() implies 1 <= #[trigger] decode_bins(
            raw,
        )[i] <= 0x7fff_ffff by {
            if i > 0 {
                assert(decode_bins(raw)[i] == decode_bins(raw.skip(1))[i - 1]);
            }
        }
    }
}

/// The list of supported formats a sentinel-terminated driver array
/// decodes to: the longest prefix of recognized format codes, in order.
pub open spec fn decode_formats(raw: Seq<i32>) -> Seq<ImageFormat>
    decreases raw.len(),
{
    if raw.len() == 0 || ImageFormat::spec_from_code(raw[0]) is None {
        Seq::empty()
    } else {
        seq![ImageFormat::spec_from_code(raw[0]).unwrap()] + decode_formats(raw.skip(1))
    }
}

/// Decodes the driver's sentinel-terminated binning-factor array.
pub fn decode_bins_buffer(raw: &[i32]) -> (r: Vec<u32>)
    ensures
        r@ == decode_bins(raw@),
{
    let mut v: Vec<u32> = Vec::new();
    let mut i: usize = 0;
    proof {
        assert(raw@.skip(0) =~= raw@);
        assert(v@ + decode_bins(raw@) =~= decode_bins(raw@));
    }
    while i < raw.len() && raw[i] > 0
        invariant
            i <= raw@.len(),
            v@ + decode_bins(raw@.skip(i as int)) == decode_bins(raw@),
        decreases raw@.len() - i,
    {
        let ghost v0 = v@;
        let ghost ii = i as int;
        proof {
            assert(raw@.skip(ii)[0] == raw@[ii]);
            assert(raw@.skip(ii).skip(1) =~= raw@.skip(ii + 1));
        }
        v.push(raw[i] as u32);
        i = i + 1;
        proof {
            assert(v@ + decode_bins(raw@.skip(ii + 1)) =~= v0 + decode_bins(raw@.skip(ii)));
        }
    }
    proof {
        assert(decode_bins(raw@.skip(i as int)) =~= Seq::<u32>::empty());
        assert(v@ + decode_bins(raw@.skip(i as int)) =~= v@);
    }
    v
}

/// Decodes the driver's sentinel-terminated supported-format array.
pub fn decode_formats_buffer(raw: &[i32]) -> (r: Vec<ImageFormat>)
    ensures
        r@ == decode_formats(raw@),
{
    let mut v: Vec<ImageFormat> = Vec::new();
    let mut i: usize = 0;
    proof {
        assert(raw@.skip(0) =~= raw@);
        assert(v@ + decode_formats(raw@) =~= decode_formats(raw@));
    }
    loop
        invariant
            i <= raw@.len(),
            v@ + decode_formats(raw@.skip(i as int)) == decode_formats(raw@),
        ensures
            v@ == decode_formats(raw@),
        decreases raw@.len() - i,
    {
        if i >= raw.len() {
            proof {
                assert(decode_formats(raw@.skip(i as int)) =~= Seq::<ImageFormat>::empty());
                assert(v@ + decode_formats(raw@.skip(i as int)) =~= v@);
            }
            break ;
        }
        let ghost v0 = v@;
        let ghost ii = i as int;
        proof {
            assert(raw@.skip(ii)[0] == raw@[ii]);
            assert(raw@.skip(ii).skip(1) =~= raw@.skip(ii + 1));
        }
        let f = ImageFormat::from_code(raw[i]);
        match f {
            None => {
                proof {
                    assert(decode_formats(raw@.skip(i as int)) =~= Seq::<ImageFormat>::empty());
                    assert(v@ + decode_formats(raw@.skip(i as int)) =~= v@);
                }
                break ;
            },
            Some(fmt) => {
                v.push(fmt);
                i = i + 1;
                proof {
                    assert(v@ + decode_formats(raw@.skip(ii + 1)) =~= v0 + decode_formats(
                        raw@.skip(ii),
                    ));
                }
            },
        }
    }
    v
}

/// Whether a supported-binning list contains a factor.
pub fn contains_bin(bins: &Vec<u32>, x: u32) -> (r: bool)
    ensures
        r == bins@.contains(x),
{
    let mut i: usize = 0;
    while i < bins.len()
        invariant
            i <= bins@.len(),
            forall|j: int| 0 <= j < i ==> bins@[j] != x,
        decreases bins@.len() - i,
    {
        if bins[i] == x {
            return true;
        }
        i = i + 1;
    }
    false
}

/// The raw per-device property record the driver reports: fixed-size
/// NUL-terminated text buffers, sentinel-terminated arrays, vendor
/// two-valued booleans, and the pixel size as the bit pattern of the
/// driver's 64-bit float.
#[derive(Debug, Copy, Clone)]
pub struct RawCameraProperties {
    pub camera_model_name: [u8; 256],
    pub user_custom_id: [u8; 16],
    pub camera_id: i32,
    pub max_width: i32,
    pub max_height: i32,
    pub bit_depth: i32,
    pub is_color_camera: i32,
    pub is_has_st4_port: i32,
    pub is_has_cooler: i32,
    pub is_usb3_speed: i32,
    pub bayer_pattern: i32,
    pub pixel_size_bits: u64,
    pub serial_number: [u8; 64],
    pub sensor_model_name: [u8; 32],
    pub local_path: [u8; 256],
    pub bins: [i32; 8],
    pub img_formats: [i32; 8],
    pub is_support_hard_bin: i32,
    pub product_id: i32,
}

/// What the driver's contract guarantees of every property record it
/// reports successfully: the identifier and the geometry fields are
/// non-negative.
pub open spec fn raw_props_wf(raw: RawCameraProperties) -> bool {
    &&& raw.camera_id >= 0
    &&& raw.max_width >= 0
    &&& raw.max_height >= 0
    &&& raw.bit_depth >= 0
}

/// The typed, immutable property snapshot of one device.
#[derive(Debug, Clone)]
pub struct CameraProperties {
    /// the camera name
    pub camera_model_name: String,
    /// user custom name, appended after the camera name; default is empty
    pub user_custom_id: String,
    pub camera_id: u32,
    /// max width of the camera
    pub max_width: u32,
    /// max height of the camera
    pub max_height: u32,
    /// ADC depth of CMOS sensor
    pub bit_depth: u32,
    /// is a color camera or not
    pub is_color_camera: bool,
    /// does the camera have an ST4 guide port
    pub is_has_st_4_port: bool,
    /// does the camera have a cooler assembly
    pub is_has_cooler: bool,
    /// is usb3.0 speed connection
    pub is_usb_3_speed: bool,
    /// the bayer filter pattern of camera
    pub bayer_pattern: BayerPattern,
    /// camera pixel size in micrometers, as the bit pattern of the
    /// driver's 64-bit float
    pub pixel_size_bits: u64,
    /// the serial number of camera, unique
    pub serial_number: String,
    /// the sensor model name
    pub sensor_model_name: String,
    /// the path of the camera in the computer host
    pub local_path: String,
    /// bins supported by the camera, 1 == bin1, 2 == bin2, ...
    pub bins: Vec<u32>,
    /// image data formats supported by the camera
    pub img_formats: Vec<ImageFormat>,
    /// does the camera sensor support hardware bin
    pub is_support_hard_bin: bool,
    /// camera's product id
    pub product_id: i32,
}

/// Mathematical view of a property snapshot.
pub struct PropsV {
    pub camera_model_name: Seq<char>,
    pub user_custom_id: Seq<char>,
    pub camera_id: u32,
    pub max_width: u32,
    pub max_height: u32,
    pub bit_depth: u32,
    pub is_color_camera: bool,
    pub is_has_st_4_port: bool,
    pub is_has_cooler: bool,
    pub is_usb_3_speed: bool,
    pub bayer_pattern: BayerPattern,
    pub pixel_size_bits: u64,
    pub serial_number: Seq<char>,
    pub sensor_model_name: Seq<char>,
    pub local_path: Seq<char>,
    pub bins: Seq<u32>,
    pub img_formats: Seq<ImageFormat>,
    pub is_support_hard_bin: bool,
    pub product_id: i32,
}

impl View for CameraProperties {
    type V = PropsV;

    open spec fn view(&self) -> PropsV {
        PropsV {
            camera_model_name: self.camera_model_name@,
            user_custom_id: self.user_custom_id@,
            camera_id: self.camera_id,
            max_width: self.max_width,
            max_height: self.max_height,
            bit_depth: self.bit_depth,
            is_color_camera: self.is_color_camera,
            is_has_st_4_port: self.is_has_st_4_port,
            is_has_cooler: self.is_has_cooler,
            is_usb_3_speed: self.is_usb_3_speed,
            bayer_pattern: self.bayer_pattern,
            pixel_size_bits: self.pixel_size_bits,
            serial_number: self.serial_number@,
            sensor_model_name: self.sensor_model_name@,
            local_path: self.local_path@,
            bins: self.bins@,
            img_formats: self.img_formats@,
            is_support_hard_bin: self.is_support_hard_bin,
            product_id: self.product_id,
        }
    }
}

/// The snapshot a well-formed raw property record decodes to.
pub open spec fn spec_props_of_raw(raw: RawCameraProperties) -> PropsV {
    PropsV {
        camera_model_name: decode_text(raw.camera_model_name@),
        user_custom_id: decode_text(raw.user_custom_id@),
        camera_id: raw.camera_id as u32,
        max_width: raw.max_width as u32,
        max_height: raw.max_height as u32,
        bit_depth: raw.bit_depth as u32,
        is_color_camera: spec_vendor_to_bool(raw.is_color_camera),
        is_has_st_4_port: spec_vendor_to_bool(raw.is_has_st4_port),
        is_has_cooler: spec_vendor_to_bool(raw.is_has_cooler),
        is_usb_3_speed: spec_vendor_to_bool(raw.is_usb3_speed),
        bayer_pattern: BayerPattern::spec_of_code(raw.bayer_pattern),
        pixel_size_bits: raw.pixel_size_bits,
        serial_number: decode_text(raw.serial_number@),
        sensor_model_name: decode_text(raw.sensor_model_name@),
        local_path: decode_text(raw.local_path@),
        bins: decode_bins(raw.bins@),
        img_formats: decode_formats(raw.img_formats@),
        is_support_hard_bin: spec_vendor_to_bool(raw.is_support_hard_bin),
        product_id: raw.product_id,
    }
}

impl CameraProperties {
    /// Decodes the driver's raw property record into the typed snapshot:
    /// text buffers up to their first NUL as UTF-8 with invalid subparts
    /// replaced, the binning and format arrays up to their sentinels,
    /// vendor booleans to native ones.
    pub fn from_raw(raw: &RawCameraProperties) -> (r: CameraProperties)
        requires
            raw_props_wf(*raw),
        ensures
            r@ == spec_props_of_raw(*raw),
    {
        CameraProperties {
            camera_model_name: decode_text_buffer(&raw.camera_model_name),
            user_custom_id: decode_text_buffer(&raw.user_custom_id),
            camera_id: raw.camera_id as u32,
            max_width: raw.max_width as u32,
            max_height: raw.max_height as u32,
            bit_depth: raw.bit_depth as u32,
            is_color_camera: raw.is_color_camera == 1,
            is_has_st_4_port: raw.is_has_st4_port == 1,
            is_has_cooler: raw.is_has_cooler == 1,
            is_usb_3_speed: raw.is_usb3_speed == 1,
            bayer_pattern: BayerPattern::of_code(raw.bayer_pattern),
            pixel_size_bits: raw.pixel_size_bits,
            serial_number: decode_text_buffer(&raw.serial_number),
            sensor_model_name: decode_text_buffer(&raw.sensor_model_name),
            local_path: decode_text_buffer(&raw.local_path),
            bins: decode_bins_buffer(&raw.bins),
            img_formats: decode_formats_buffer(&raw.img_formats),
            is_support_hard_bin: raw.is_support_hard_bin == 1,
            product_id: raw.product_id,
        }
    }
}

/// What decoding guarantees of every snapshot that came from a
/// well-formed raw record: the geometry bounds and every supported
/// binning factor fit an `i32`.
pub open spec fn props_wf(p: PropsV) -> bool {
    &&& p.max_width <= 0x7fff_ffff
    &&& p.max_height <= 0x7fff_ffff
    &&& forall|i: int| 0 <= i < p.bins.len() ==> 1 <= #[trigger] p.bins[i] <= 0x7fff_ffff
}

/// Decoding a well-formed raw record yields a well-formed snapshot.
pub proof fn lemma_decoded_props_wf(raw: RawCameraProperties)
    requires
        raw_props_wf(raw),
    ensures
        props_wf(spec_props_of_raw(raw)),
{
    lemma_decode_bins_bounds(raw.bins@);
}

} // verus!
