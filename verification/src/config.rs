//! Configuration slots: the closed set of slot identifiers with their
//! fixed value types and capabilities, the raw per-slot attribute record
//! the driver reports, and the decoding of the whole bounds snapshot.

use vstd::prelude::*;

use crate::error::Error;
use crate::text::decode_text;
use crate::text::decode_text_buffer;
use crate::value::RawValue;
use crate::value::ValueType;
use crate::value::VALUE_TYPE_INT;

verus! {

pub const CONFIG_EXPOSURE: i32 = 0;

pub const CONFIG_GAIN: i32 = 1;

pub const CONFIG_HARDWARE_BIN: i32 = 2;

pub const CONFIG_TEMPERATURE: i32 = 3;

pub const CONFIG_WB_R: i32 = 4;

pub const CONFIG_WB_G: i32 = 5;

pub const CONFIG_WB_B: i32 = 6;

pub const CONFIG_OFFSET: i32 = 7;

pub const CONFIG_AUTOEXPO_MAX_GAIN: i32 = 8;

pub const CONFIG_AUTOEXPO_MAX_EXPOSURE: i32 = 9;

pub const CONFIG_AUTOEXPO_BRIGHTNESS: i32 = 10;

pub const CONFIG_GUIDE_NORTH: i32 = 11;

pub const CONFIG_GUIDE_SOUTH: i32 = 12;

pub const CONFIG_GUIDE_EAST: i32 = 13;

pub const CONFIG_GUIDE_WEST: i32 = 14;

pub const CONFIG_EGAIN: i32 = 15;

pub const CONFIG_COOLER_POWER: i32 = 16;

pub const CONFIG_TARGET_TEMP: i32 = 17;

pub const CONFIG_COOLER: i32 = 18;

pub const CONFIG_HEATER: i32 = 19;

pub const CONFIG_HEATER_POWER: i32 = 20;

pub const CONFIG_FAN_POWER: i32 = 21;

pub const CONFIG_FLIP_NONE: i32 = 22;

pub const CONFIG_FLIP_HORI: i32 = 23;

pub const CONFIG_FLIP_VERT: i32 = 24;

pub const CONFIG_FLIP_BOTH: i32 = 25;

pub const CONFIG_FRAME_LIMIT: i32 = 26;

pub const CONFIG_HQI: i32 = 27;

pub const CONFIG_USB_BANDWIDTH_LIMIT: i32 = 28;

pub const CONFIG_PIXEL_BIN_SUM: i32 = 29;

pub const CONFIG_MONO_BIN: i32 = 30;

/// The closed set of configuration slot identifiers, each with a fixed
/// value type and fixed read/write/auto capabilities known a priori.
#[derive(Debug, Copy, Clone, Hash, PartialEq, Eq, Structural)]
pub enum ConfigKind {
    /// exposure time (unit: us), read-write
    Exposure,
    /// gain, read-write
    Gain,
    /// hardware bin, read-write
    HardwareBin,
    /// camera temperature (unit: C), read-only
    Temperature,
    /// red pixels coefficient of white balance, read-write
    WbR,
    /// green pixels coefficient of white balance, read-write
    WbG,
    /// blue pixels coefficient of white balance, read-write
    WbB,
    /// camera offset, read-write
    Offset,
    /// maximum gain when auto-adjust, read-write
    AutoexpoMaxGain,
    /// maximum exposure when auto-adjust (unit: ms), read-write
    AutoexpoMaxExposure,
    /// target brightness when auto-adjust, read-write
    AutoexpoBrightness,
    /// ST4 guide north, generally it's DEC+ on the mount, read-write
    GuideNorth,
    /// ST4 guide south, generally it's DEC- on the mount, read-write
    GuideSouth,
    /// ST4 guide east, generally it's RA+ on the mount, read-write
    GuideEast,
    /// ST4 guide west, generally it's RA- on the mount, read-write
    GuideWest,
    /// e/ADU, changes with gain, read-only
    Egain,
    /// cooler power percentage [0-100%] (only cooled cameras), read-only
    CoolerPower,
    /// camera target temperature (unit: C), read-write
    TargetTemp,
    /// turn cooler (and fan) on or off, read-write
    Cooler,
    /// legacy state of lens heater (on or off), read-only
    Heater,
    /// lens heater power percentage [0-100%], read-write
    HeaterPower,
    /// radiator fan power percentage [0-100%], read-write
    FanPower,
    /// no flip, read-write
    FlipNone,
    /// flip the image horizontally, read-write
    FlipHori,
    /// flip the image vertically, read-write
    FlipVert,
    /// flip the image horizontally and vertically, read-write
    FlipBoth,
    /// frame rate limit, range [0, 2000], 0 means no limit, read-write
    FrameLimit,
    /// high quality image for cameras without DDR, read-write
    Hqi,
    /// USB bandwidth limit, read-write
    UsbBandwidthLimit,
    /// take the sum of pixels after binning rather than the average,
    /// read-write
    PixelBinSum,
    /// only for color cameras: binning uses neighbour pixels and the
    /// result loses the bayer pattern, read-write
    MonoBin,
}

impl ConfigKind {
    /// The driver's code for this slot.
    pub open spec fn code_spec(self) -> i32 {
        match self {
            ConfigKind::Exposure => CONFIG_EXPOSURE,
            ConfigKind::Gain => CONFIG_GAIN,
            ConfigKind::HardwareBin => CONFIG_HARDWARE_BIN,
            ConfigKind::Temperature => CONFIG_TEMPERATURE,
            ConfigKind::WbR => CONFIG_WB_R,
            ConfigKind::WbG => CONFIG_WB_G,
            ConfigKind::WbB => CONFIG_WB_B,
            ConfigKind::Offset => CONFIG_OFFSET,
            ConfigKind::AutoexpoMaxGain => CONFIG_AUTOEXPO_MAX_GAIN,
            ConfigKind::AutoexpoMaxExposure => CONFIG_AUTOEXPO_MAX_EXPOSURE,
            ConfigKind::AutoexpoBrightness => CONFIG_AUTOEXPO_BRIGHTNESS,
            ConfigKind::GuideNorth => CONFIG_GUIDE_NORTH,
            ConfigKind::GuideSouth => CONFIG_GUIDE_SOUTH,
            ConfigKind::GuideEast => CONFIG_GUIDE_EAST,
            ConfigKind::GuideWest => CONFIG_GUIDE_WEST,
            ConfigKind::Egain => CONFIG_EGAIN,
            ConfigKind::CoolerPower => CONFIG_COOLER_POWER,
            ConfigKind::TargetTemp => CONFIG_TARGET_TEMP,
            ConfigKind::Cooler => CONFIG_COOLER,
            ConfigKind::Heater => CONFIG_HEATER,
            ConfigKind::HeaterPower => CONFIG_HEATER_POWER,
            ConfigKind::FanPower => CONFIG_FAN_POWER,
            ConfigKind::FlipNone => CONFIG_FLIP_NONE,
            ConfigKind::FlipHori => CONFIG_FLIP_HORI,
            ConfigKind::FlipVert => CONFIG_FLIP_VERT,
            ConfigKind::FlipBoth => CONFIG_FLIP_BOTH,
            ConfigKind::FrameLimit => CONFIG_FRAME_LIMIT,
            ConfigKind::Hqi => CONFIG_HQI,
            ConfigKind::UsbBandwidthLimit => CONFIG_USB_BANDWIDTH_LIMIT,
            ConfigKind::PixelBinSum => CONFIG_PIXEL_BIN_SUM,
            ConfigKind::MonoBin => CONFIG_MONO_BIN,
        }
    }

    /// The driver's code for this slot.
    pub fn code(self) -> (r: i32)
        ensures
            r == self.code_spec(),
    {
        match self {
            ConfigKind::Exposure => CONFIG_EXPOSURE,
            ConfigKind::Gain => CONFIG_GAIN,
            ConfigKind::HardwareBin => CONFIG_HARDWARE_BIN,
            ConfigKind::Temperature => CONFIG_TEMPERATURE,
            ConfigKind::WbR => CONFIG_WB_R,
            ConfigKind::WbG => CONFIG_WB_G,
            ConfigKind::WbB => CONFIG_WB_B,
            ConfigKind::Offset => CONFIG_OFFSET,
            ConfigKind::AutoexpoMaxGain => CONFIG_AUTOEXPO_MAX_GAIN,
            ConfigKind::AutoexpoMaxExposure => CONFIG_AUTOEXPO_MAX_EXPOSURE,
            ConfigKind::AutoexpoBrightness => CONFIG_AUTOEXPO_BRIGHTNESS,
            ConfigKind::GuideNorth => CONFIG_GUIDE_NORTH,
            ConfigKind::GuideSouth => CONFIG_GUIDE_SOUTH,
            ConfigKind::GuideEast => CONFIG_GUIDE_EAST,
            ConfigKind::GuideWest => CONFIG_GUIDE_WEST,
            ConfigKind::Egain => CONFIG_EGAIN,
            ConfigKind::CoolerPower => CONFIG_COOLER_POWER,
            ConfigKind::TargetTemp => CONFIG_TARGET_TEMP,
            ConfigKind::Cooler => CONFIG_COOLER,
            ConfigKind::Heater => CONFIG_HEATER,
            ConfigKind::HeaterPower => CONFIG_HEATER_POWER,
            ConfigKind::FanPower => CONFIG_FAN_POWER,
            ConfigKind::FlipNone => CONFIG_FLIP_NONE,
            ConfigKind::FlipHori => CONFIG_FLIP_HORI,
            ConfigKind::FlipVert => CONFIG_FLIP_VERT,
            ConfigKind::FlipBoth => CONFIG_FLIP_BOTH,
            ConfigKind::FrameLimit => CONFIG_FRAME_LIMIT,
            ConfigKind::Hqi => CONFIG_HQI,
            ConfigKind::UsbBandwidthLimit => CONFIG_USB_BANDWIDTH_LIMIT,
            ConfigKind::PixelBinSum => CONFIG_PIXEL_BIN_SUM,
            ConfigKind::MonoBin => CONFIG_MONO_BIN,
        }
    }

    /// The slot a driver code stands for, if any.
    pub open spec fn spec_from_code(code: i32) -> Option<ConfigKind> {
        if code == CONFIG_EXPOSURE {
            Some(ConfigKind::Exposure)
        } else if code == CONFIG_GAIN {
            Some(ConfigKind::Gain)
        } else if code == CONFIG_HARDWARE_BIN {
            Some(ConfigKind::HardwareBin)
        } else if code == CONFIG_TEMPERATURE {
            Some(ConfigKind::Temperature)
        } else if code == CONFIG_WB_R {
            Some(ConfigKind::WbR)
        } else if code == CONFIG_WB_G {
            Some(ConfigKind::WbG)
        } else if code == CONFIG_WB_B {
            Some(ConfigKind::WbB)
        } else if code == CONFIG_OFFSET {
            Some(ConfigKind::Offset)
        } else if code == CONFIG_AUTOEXPO_MAX_GAIN {
            Some(ConfigKind::AutoexpoMaxGain)
        } else if code == CONFIG_AUTOEXPO_MAX_EXPOSURE {
            Some(ConfigKind::AutoexpoMaxExposure)
        } else if code == CONFIG_AUTOEXPO_BRIGHTNESS {
            Some(ConfigKind::AutoexpoBrightness)
        } else if code == CONFIG_GUIDE_NORTH {
            Some(ConfigKind::GuideNorth)
        } else if code == CONFIG_GUIDE_SOUTH {
            Some(ConfigKind::GuideSouth)
        } else if code == CONFIG_GUIDE_EAST {
            Some(ConfigKind::GuideEast)
        } else if code == CONFIG_GUIDE_WEST {
            Some(ConfigKind::GuideWest)
        } else if code == CONFIG_EGAIN {
            Some(ConfigKind::Egain)
        } else if code == CONFIG_COOLER_POWER {
            Some(ConfigKind::CoolerPower)
        } else if code == CONFIG_TARGET_TEMP {
            Some(ConfigKind::TargetTemp)
        } else if code == CONFIG_COOLER {
            Some(ConfigKind::Cooler)
        } else if code == CONFIG_HEATER {
            Some(ConfigKind::Heater)
        } else if code == CONFIG_HEATER_POWER {
            Some(ConfigKind::HeaterPower)
        } else if code == CONFIG_FAN_POWER {
            Some(ConfigKind::FanPower)
        } else if code == CONFIG_FLIP_NONE {
            Some(ConfigKind::FlipNone)
        } else if code == CONFIG_FLIP_HORI {
            Some(ConfigKind::FlipHori)
        } else if code == CONFIG_FLIP_VERT {
            Some(ConfigKind::FlipVert)
        } else if code == CONFIG_FLIP_BOTH {
            Some(ConfigKind::FlipBoth)
        } else if code == CONFIG_FRAME_LIMIT {
            Some(ConfigKind::FrameLimit)
        } else if code == CONFIG_HQI {
            Some(ConfigKind::Hqi)
        } else if code == CONFIG_USB_BANDWIDTH_LIMIT {
            Some(ConfigKind::UsbBandwidthLimit)
        } else if code == CONFIG_PIXEL_BIN_SUM {
            Some(ConfigKind::PixelBinSum)
        } else if code == CONFIG_MONO_BIN {
            Some(ConfigKind::MonoBin)
        } else {
            None
        }
    }

    /// The slot a driver code stands for, if any.
    pub fn from_code(code: i32) -> (r: Option<ConfigKind>)
        ensures
            r == Self::spec_from_code(code),
    {
        if code >= CONFIG_EXPOSURE && code <= CONFIG_MONO_BIN {
            let k = match code {
                CONFIG_EXPOSURE => ConfigKind::Exposure,
                CONFIG_GAIN => ConfigKind::Gain,
                CONFIG_HARDWARE_BIN => ConfigKind::HardwareBin,
                CONFIG_TEMPERATURE => ConfigKind::Temperature,
                CONFIG_WB_R => ConfigKind::WbR,
                CONFIG_WB_G => ConfigKind::WbG,
                CONFIG_WB_B => ConfigKind::WbB,
                CONFIG_OFFSET => ConfigKind::Offset,
                CONFIG_AUTOEXPO_MAX_GAIN => ConfigKind::AutoexpoMaxGain,
                CONFIG_AUTOEXPO_MAX_EXPOSURE => ConfigKind::AutoexpoMaxExposure,
                CONFIG_AUTOEXPO_BRIGHTNESS => ConfigKind::AutoexpoBrightness,
                CONFIG_GUIDE_NORTH => ConfigKind::GuideNorth,
                CONFIG_GUIDE_SOUTH => ConfigKind::GuideSouth,
                CONFIG_GUIDE_EAST => ConfigKind::GuideEast,
                CONFIG_GUIDE_WEST => ConfigKind::GuideWest,
                CONFIG_EGAIN => ConfigKind::Egain,
                CONFIG_COOLER_POWER => ConfigKind::CoolerPower,
                CONFIG_TARGET_TEMP => ConfigKind::TargetTemp,
                CONFIG_COOLER => ConfigKind::Cooler,
                CONFIG_HEATER => ConfigKind::Heater,
                CONFIG_HEATER_POWER => ConfigKind::HeaterPower,
                CONFIG_FAN_POWER => ConfigKind::FanPower,
                CONFIG_FLIP_NONE => ConfigKind::FlipNone,
                CONFIG_FLIP_HORI => ConfigKind::FlipHori,
                CONFIG_FLIP_VERT => ConfigKind::FlipVert,
                CONFIG_FLIP_BOTH => ConfigKind::FlipBoth,
                CONFIG_FRAME_LIMIT => ConfigKind::FrameLimit,
                CONFIG_HQI => ConfigKind::Hqi,
                CONFIG_USB_BANDWIDTH_LIMIT => ConfigKind::UsbBandwidthLimit,
                CONFIG_PIXEL_BIN_SUM => ConfigKind::PixelBinSum,
                _ => ConfigKind::MonoBin,
            };
            Some(k)
        } else {
            None
        }
    }

    /// The fixed value type of this slot; it is not self-describing per
    /// read, so callers pair every slot with its type here.
    pub open spec fn value_type_spec(self) -> ValueType {
        match self {
            ConfigKind::Exposure => ValueType::Int,
            ConfigKind::Gain => ValueType::Int,
            ConfigKind::HardwareBin => ValueType::Bool,
            ConfigKind::Temperature => ValueType::Float,
            ConfigKind::WbR => ValueType::Int,
            ConfigKind::WbG => ValueType::Int,
            ConfigKind::WbB => ValueType::Int,
            ConfigKind::Offset => ValueType::Int,
            ConfigKind::AutoexpoMaxGain => ValueType::Int,
            ConfigKind::AutoexpoMaxExposure => ValueType::Int,
            ConfigKind::AutoexpoBrightness => ValueType::Int,
            ConfigKind::GuideNorth => ValueType::Bool,
            ConfigKind::GuideSouth => ValueType::Bool,
            ConfigKind::GuideEast => ValueType::Bool,
            ConfigKind::GuideWest => ValueType::Bool,
            ConfigKind::Egain => ValueType::Float,
            ConfigKind::CoolerPower => ValueType::Int,
            ConfigKind::TargetTemp => ValueType::Int,
            ConfigKind::Cooler => ValueType::Bool,
            ConfigKind::Heater => ValueType::Bool,
            ConfigKind::HeaterPower => ValueType::Int,
            ConfigKind::FanPower => ValueType::Int,
            ConfigKind::FlipNone => ValueType::Bool,
            ConfigKind::FlipHori => ValueType::Bool,
            ConfigKind::FlipVert => ValueType::Bool,
            ConfigKind::FlipBoth => ValueType::Bool,
            ConfigKind::FrameLimit => ValueType::Int,
            ConfigKind::Hqi => ValueType::Bool,
            ConfigKind::UsbBandwidthLimit => ValueType::Int,
            ConfigKind::PixelBinSum => ValueType::Bool,
            ConfigKind::MonoBin => ValueType::Bool,
        }
    }

    /// The fixed value type of this slot.
    pub fn value_type(self) -> (r: ValueType)
        ensures
            r == self.value_type_spec(),
    {
        match self {
            ConfigKind::Exposure => ValueType::Int,
            ConfigKind::Gain => ValueType::Int,
            ConfigKind::HardwareBin => ValueType::Bool,
            ConfigKind::Temperature => ValueType::Float,
            ConfigKind::WbR => ValueType::Int,
            ConfigKind::WbG => ValueType::Int,
            ConfigKind::WbB => ValueType::Int,
            ConfigKind::Offset => ValueType::Int,
            ConfigKind::AutoexpoMaxGain => ValueType::Int,
            ConfigKind::AutoexpoMaxExposure => ValueType::Int,
            ConfigKind::AutoexpoBrightness => ValueType::Int,
            ConfigKind::GuideNorth => ValueType::Bool,
            ConfigKind::GuideSouth => ValueType::Bool,
            ConfigKind::GuideEast => ValueType::Bool,
            ConfigKind::GuideWest => ValueType::Bool,
            ConfigKind::Egain => ValueType::Float,
            ConfigKind::CoolerPower => ValueType::Int,
            ConfigKind::TargetTemp => ValueType::Int,
            ConfigKind::Cooler => ValueType::Bool,
            ConfigKind::Heater => ValueType::Bool,
            ConfigKind::HeaterPower => ValueType::Int,
            ConfigKind::FanPower => ValueType::Int,
            ConfigKind::FlipNone => ValueType::Bool,
            ConfigKind::FlipHori => ValueType::Bool,
            ConfigKind::FlipVert => ValueType::Bool,
            ConfigKind::FlipBoth => ValueType::Bool,
            ConfigKind::FrameLimit => ValueType::Int,
            ConfigKind::Hqi => ValueType::Bool,
            ConfigKind::UsbBandwidthLimit => ValueType::Int,
            ConfigKind::PixelBinSum => ValueType::Bool,
            ConfigKind::MonoBin => ValueType::Bool,
        }
    }

    /// Whether the slot can be written. Temperature, e/ADU, cooler power
    /// and the legacy heater state are read-only.
    pub open spec fn is_writable_spec(self) -> bool {
        match self {
            ConfigKind::Temperature => false,
            ConfigKind::Egain => false,
            ConfigKind::CoolerPower => false,
            ConfigKind::Heater => false,
            _ => true,
        }
    }

    /// Whether the slot can be written.
    pub fn is_writable(self) -> (r: bool)
        ensures
            r == self.is_writable_spec(),
    {
        match self {
            ConfigKind::Temperature => false,
            ConfigKind::Egain => false,
            ConfigKind::CoolerPower => false,
            ConfigKind::Heater => false,
            _ => true,
        }
    }

    /// Whether the slot supports automatic adjustment by the device.
    pub open spec fn supports_auto_spec(self) -> bool {
        match self {
            ConfigKind::Exposure => true,
            ConfigKind::Gain => true,
            _ => false,
        }
    }

    /// Whether the slot supports automatic adjustment by the device.
    pub fn supports_auto(self) -> (r: bool)
        ensures
            r == self.supports_auto_spec(),
    {
        match self {
            ConfigKind::Exposure => true,
            ConfigKind::Gain => true,
            _ => false,
        }
    }
}

/// A slot's code always decodes back to the slot: the code table and the
/// decode table agree on the whole closed set.
pub proof fn lemma_config_code_round_trip(k: ConfigKind)
    ensures
        ConfigKind::spec_from_code(k.code_spec()) == Some(k),
{
}

/// The raw per-slot attribute record the driver reports: capability
/// flags as vendor booleans, the slot and type codes, the numeric
/// bounds as untyped value cells, and fixed-size text buffers.
#[derive(Debug, Copy, Clone)]
pub struct RawConfigAttributes {
    pub is_support_auto: i32,
    pub is_writable: i32,
    pub is_readable: i32,
    pub config_id: i32,
    pub value_type: i32,
    pub max_value: RawValue,
    pub min_value: RawValue,
    pub default_value: RawValue,
    pub conf_name: [u8; 64],
    pub description: [u8; 128],
}

/// What the driver's contract guarantees of every attribute record it
/// reports: a slot whose code names a known kind carries that kind's
/// statically known value type. A record that contradicts this would
/// mean the driver contract changed under the library.
pub open spec fn attr_tag_consistent(a: RawConfigAttributes) -> bool {
    match ConfigKind::spec_from_code(a.config_id) {
        Some(k) => a.value_type == k.value_type_spec().code_spec(),
        None => true,
    }
}

/// The min/max/default bounds of one configuration slot, with its name
/// and description decoded from the driver's fixed-size text buffers.
#[derive(Debug, Clone)]
pub struct ConfigBounds<T> {
    pub min: T,
    pub max: T,
    pub default: T,
    pub conf_name: String,
    pub description: String,
}

/// Mathematical view of integer slot bounds.
pub struct BoundsV {
    pub min: i64,
    pub max: i64,
    pub default: i64,
    pub conf_name: Seq<char>,
    pub description: Seq<char>,
}

impl View for ConfigBounds<i64> {
    type V = BoundsV;

    open spec fn view(&self) -> BoundsV {
        BoundsV {
            min: self.min,
            max: self.max,
            default: self.default,
            conf_name: self.conf_name@,
            description: self.description@,
        }
    }
}

/// The integer bounds an attribute record decodes to, reading its three
/// untyped value cells as signed integers.
pub open spec fn spec_int_bounds(a: RawConfigAttributes) -> BoundsV {
    BoundsV {
        min: a.min_value.spec_as_int(),
        max: a.max_value.spec_as_int(),
        default: a.default_value.spec_as_int(),
        conf_name: decode_text(a.conf_name@),
        description: decode_text(a.description@),
    }
}

impl ConfigBounds<i64> {
    /// Decodes one attribute record as integer bounds. A record whose
    /// declared type tag is not integer must never reach this decode
    /// (that would be a driver contract change), so the precondition
    /// demands the tag.
    pub fn from_raw_int(a: &RawConfigAttributes) -> (r: ConfigBounds<i64>)
        requires
            a.value_type == VALUE_TYPE_INT,
        ensures
            r@ == spec_int_bounds(*a),
    {
        ConfigBounds {
            min: a.min_value.as_int(),
            max: a.max_value.as_int(),
            default: a.default_value.as_int(),
            conf_name: decode_text_buffer(&a.conf_name),
            description: decode_text_buffer(&a.description),
        }
    }
}

/// One device's integer slot bounds, collected from the driver's
/// attribute enumeration: every slot the device reported is present,
/// every other slot absent. Slots such as white balance, cooler and
/// heater are legitimately absent on monochrome or non-cooled hardware.
#[derive(Debug, Clone)]
pub struct OptionalConfigBounds {
    /// exposure time (unit: us)
    pub exposure: Option<ConfigBounds<i64>>,
    pub gain: Option<ConfigBounds<i64>>,
    /// red pixels coefficient of white balance
    pub wb_r: Option<ConfigBounds<i64>>,
    /// green pixels coefficient of white balance
    pub wb_g: Option<ConfigBounds<i64>>,
    /// blue pixels coefficient of white balance
    pub wb_b: Option<ConfigBounds<i64>>,
    /// gain offset
    pub offset: Option<ConfigBounds<i64>>,
    /// maximum gain when auto-adjust
    pub auto_max_gain: Option<ConfigBounds<i64>>,
    /// maximum exposure when auto-adjust (unit: ms)
    pub auto_max_exposure: Option<ConfigBounds<i64>>,
    /// target brightness when auto-adjust
    pub auto_target_brightness: Option<ConfigBounds<i64>>,
    /// frame rate limit, range [0, 2000], 0 means no limit
    pub frame_limit: Option<ConfigBounds<i64>>,
    /// USB bandwidth limit [0, 100]%
    pub usb_bandwidth_limit: Option<ConfigBounds<i64>>,
    /// cooler power percentage [0-100%]
    pub cooler_power: Option<ConfigBounds<i64>>,
    /// camera target temperature (Celsius)
    pub target_temperature: Option<ConfigBounds<i64>>,
    /// heater power percentage [0-100%]
    pub heater_power: Option<ConfigBounds<i64>>,
    /// radiator fan power percentage [0-100%]
    pub fan_power: Option<ConfigBounds<i64>>,
}

/// Mathematical view of a collected (possibly partial) bounds snapshot.
pub struct OptionalBoundsV {
    pub exposure: Option<BoundsV>,
    pub gain: Option<BoundsV>,
    pub wb_r: Option<BoundsV>,
    pub wb_g: Option<BoundsV>,
    pub wb_b: Option<BoundsV>,
    pub offset: Option<BoundsV>,
    pub auto_max_gain: Option<BoundsV>,
    pub auto_max_exposure: Option<BoundsV>,
    pub auto_target_brightness: Option<BoundsV>,
    pub frame_limit: Option<BoundsV>,
    pub usb_bandwidth_limit: Option<BoundsV>,
    pub cooler_power: Option<BoundsV>,
    pub target_temperature: Option<BoundsV>,
    pub heater_power: Option<BoundsV>,
    pub fan_power: Option<BoundsV>,
}

pub open spec fn view_opt_bounds(o: Option<ConfigBounds<i64>>) -> Option<BoundsV> {
    match o {
        Some(b) => Some(b@),
        None => None,
    }
}

impl View for OptionalConfigBounds {
    type V = OptionalBoundsV;

    open spec fn view(&self) -> OptionalBoundsV {
        OptionalBoundsV {
            exposure: view_opt_bounds(self.exposure),
            gain: view_opt_bounds(self.gain),
            wb_r: view_opt_bounds(self.wb_r),
            wb_g: view_opt_bounds(self.wb_g),
            wb_b: view_opt_bounds(self.wb_b),
            offset: view_opt_bounds(self.offset),
            auto_max_gain: view_opt_bounds(self.auto_max_gain),
            auto_max_exposure: view_opt_bounds(self.auto_max_exposure),
            auto_target_brightness: view_opt_bounds(self.auto_target_brightness),
            frame_limit: view_opt_bounds(self.frame_limit),
            usb_bandwidth_limit: view_opt_bounds(self.usb_bandwidth_limit),
            cooler_power: view_opt_bounds(self.cooler_power),
            target_temperature: view_opt_bounds(self.target_temperature),
            heater_power: view_opt_bounds(self.heater_power),
            fan_power: view_opt_bounds(self.fan_power),
        }
    }
}

/// The empty snapshot: no slot collected yet.
pub open spec fn empty_bounds() -> OptionalBoundsV {
    OptionalBoundsV {
        exposure: None,
        gain: None,
        wb_r: None,
        wb_g: None,
        wb_b: None,
        offset: None,
        auto_max_gain: None,
        auto_max_exposure: None,
        auto_target_brightness: None,
        frame_limit: None,
        usb_bandwidth_limit: None,
        cooler_power: None,
        target_temperature: None,
        heater_power: None,
        fan_power: None,
    }
}

/// How one attribute record lands in the snapshot: a record for one of
/// the fifteen integer slots fills that slot (a later record for the
/// same slot wins), every other record is skipped.
pub open spec fn apply_attr(p: OptionalBoundsV, a: RawConfigAttributes) -> OptionalBoundsV {
    if a.config_id == CONFIG_EXPOSURE {
        OptionalBoundsV { exposure: Some(spec_int_bounds(a)), ..p }
    } else if a.config_id == CONFIG_GAIN {
        OptionalBoundsV { gain: Some(spec_int_bounds(a)), ..p }
    } else if a.config_id == CONFIG_WB_R {
        OptionalBoundsV { wb_r: Some(spec_int_bounds(a)), ..p }
    } else if a.config_id == CONFIG_WB_G {
        OptionalBoundsV { wb_g: Some(spec_int_bounds(a)), ..p }
    } else if a.config_id == CONFIG_WB_B {
        OptionalBoundsV { wb_b: Some(spec_int_bounds(a)), ..p }
    } else if a.config_id == CONFIG_OFFSET {
        OptionalBoundsV { offset: Some(spec_int_bounds(a)), ..p }
    } else if a.config_id == CONFIG_AUTOEXPO_MAX_GAIN {
        OptionalBoundsV { auto_max_gain: Some(spec_int_bounds(a)), ..p }
    } else if a.config_id == CONFIG_AUTOEXPO_MAX_EXPOSURE {
        OptionalBoundsV { auto_max_exposure: Some(spec_int_bounds(a)), ..p }
    } else if a.config_id == CONFIG_AUTOEXPO_BRIGHTNESS {
        OptionalBoundsV { auto_target_brightness: Some(spec_int_bounds(a)), ..p }
    } else if a.config_id == CONFIG_COOLER_POWER {
        OptionalBoundsV { cooler_power: Some(spec_int_bounds(a)), ..p }
    } else if a.config_id == CONFIG_TARGET_TEMP {
        OptionalBoundsV { target_temperature: Some(spec_int_bounds(a)), ..p }
    } else if a.config_id == CONFIG_HEATER_POWER {
        OptionalBoundsV { heater_power: Some(spec_int_bounds(a)), ..p }
    } else if a.config_id == CONFIG_FAN_POWER {
        OptionalBoundsV { fan_power: Some(spec_int_bounds(a)), ..p }
    } else if a.config_id == CONFIG_FRAME_LIMIT {
        OptionalBoundsV { frame_limit: Some(spec_int_bounds(a)), ..p }
    } else if a.config_id == CONFIG_USB_BANDWIDTH_LIMIT {
        OptionalBoundsV { usb_bandwidth_limit: Some(spec_int_bounds(a)), ..p }
    } else {
        p
    }
}

/// The snapshot a whole attribute enumeration collects to, record by
/// record from the first.
pub open spec fn collect_bounds(attrs: Seq<RawConfigAttributes>) -> OptionalBoundsV
    decreases attrs.len(),
{
    if attrs.len() == 0 {
        empty_bounds()
    } else {
        apply_attr(collect_bounds(attrs.drop_last()), attrs.last())
    }
}

impl OptionalConfigBounds {
    /// Collects the bounds snapshot from a device's attribute
    /// enumeration, keeping exactly the slots that are present. The
    /// driver's contract rules out a known slot carrying a foreign type
    /// tag, so the precondition demands tag consistency.
    pub fn from_attributes(attrs: &Vec<RawConfigAttributes>) -> (r: OptionalConfigBounds)
        requires
            forall|i: int| 0 <= i < attrs@.len() ==> attr_tag_consistent(#[trigger] attrs@[i]),
        ensures
            r@ == collect_bounds(attrs@),
    {
        let mut out = OptionalConfigBounds {
            exposure: None,
            gain: None,
            wb_r: None,
            wb_g: None,
            wb_b: None,
            offset: None,
            auto_max_gain: None,
            auto_max_exposure: None,
            auto_target_brightness: None,
            frame_limit: None,
            usb_bandwidth_limit: None,
            cooler_power: None,
            target_temperature: None,
            heater_power: None,
            fan_power: None,
        };
        let mut i: usize = 0;
        proof {
            assert(attrs@.take(0) =~= Seq::<RawConfigAttributes>::empty());
        }
        while i < attrs.len()
            invariant
                i <= attrs@.len(),
                out@ == collect_bounds(attrs@.take(i as int)),
                forall|j: int| 0 <= j < attrs@.len() ==> attr_tag_consistent(#[trigger] attrs@[j]),
            decreases attrs@.len() - i,
        {
            let ghost ii = i as int;
            let a = &attrs[i];
            if a.config_id == CONFIG_EXPOSURE {
                out.exposure = Some(ConfigBounds::from_raw_int(a));
            } else if a.config_id == CONFIG_GAIN {
                out.gain = Some(ConfigBounds::from_raw_int(a));
            } else if a.config_id == CONFIG_WB_R {
                out.wb_r = Some(ConfigBounds::from_raw_int(a));
            } else if a.config_id == CONFIG_WB_G {
                out.wb_g = Some(ConfigBounds::from_raw_int(a));
            } else if a.config_id == CONFIG_WB_B {
                out.wb_b = Some(ConfigBounds::from_raw_int(a));
            } else if a.config_id == CONFIG_OFFSET {
                out.offset = Some(ConfigBounds::from_raw_int(a));
            } else if a.config_id == CONFIG_AUTOEXPO_MAX_GAIN {
                out.auto_max_gain = Some(ConfigBounds::from_raw_int(a));
            } else if a.config_id == CONFIG_AUTOEXPO_MAX_EXPOSURE {
                out.auto_max_exposure = Some(ConfigBounds::from_raw_int(a));
            } else if a.config_id == CONFIG_AUTOEXPO_BRIGHTNESS {
                out.auto_target_brightness = Some(ConfigBounds::from_raw_int(a));
            } else if a.config_id == CONFIG_COOLER_POWER {
                out.cooler_power = Some(ConfigBounds::from_raw_int(a));
            } else if a.config_id == CONFIG_TARGET_TEMP {
                out.target_temperature = Some(ConfigBounds::from_raw_int(a));
            } else if a.config_id == CONFIG_HEATER_POWER {
                out.heater_power = Some(ConfigBounds::from_raw_int(a));
            } else if a.config_id == CONFIG_FAN_POWER {
                out.fan_power = Some(ConfigBounds::from_raw_int(a));
            } else if a.config_id == CONFIG_FRAME_LIMIT {
                out.frame_limit = Some(ConfigBounds::from_raw_int(a));
            } else if a.config_id == CONFIG_USB_BANDWIDTH_LIMIT {
                out.usb_bandwidth_limit = Some(ConfigBounds::from_raw_int(a));
            }
            i = i + 1;
            proof {
                assert(attrs@.take(ii + 1).drop_last() =~= attrs@.take(ii));
                assert(attrs@.take(ii + 1).last() == attrs@[ii]);
            }
        }
        proof {
            assert(attrs@.take(attrs@.len() as int) =~= attrs@);
        }
        out
    }
}

/// One device's integer slot bounds with the universally present slots
/// mandatory and the hardware-dependent ones optional.
#[derive(Debug, Clone)]
pub struct AllConfigBounds {
    /// exposure time (unit: us)
    pub exposure: ConfigBounds<i64>,
    pub gain: ConfigBounds<i64>,
    /// red pixels coefficient of white balance
    pub wb_r: Option<ConfigBounds<i64>>,
    /// green pixels coefficient of white balance
    pub wb_g: Option<ConfigBounds<i64>>,
    /// blue pixels coefficient of white balance
    pub wb_b: Option<ConfigBounds<i64>>,
    /// gain offset
    pub offset: ConfigBounds<i64>,
    /// maximum gain when auto-adjust
    pub auto_max_gain: ConfigBounds<i64>,
    /// maximum exposure when auto-adjust (unit: ms)
    pub auto_max_exposure: ConfigBounds<i64>,
    /// target brightness when auto-adjust
    pub auto_target_brightness: ConfigBounds<i64>,
    /// frame rate limit, range [0, 2000], 0 means no limit
    pub frame_limit: ConfigBounds<i64>,
    /// USB bandwidth limit [0, 100]%
    pub usb_bandwidth_limit: ConfigBounds<i64>,
    /// cooler power percentage [0-100%]
    pub cooler_power: Option<ConfigBounds<i64>>,
    /// camera target temperature (Celsius)
    pub target_temperature: Option<ConfigBounds<i64>>,
    /// heater power percentage [0-100%]
    pub heater_power: Option<ConfigBounds<i64>>,
    /// radiator fan power percentage [0-100%]
    pub fan_power: Option<ConfigBounds<i64>>,
}

/// Mathematical view of a full bounds snapshot.
pub struct AllBoundsV {
    pub exposure: BoundsV,
    pub gain: BoundsV,
    pub wb_r: Option<BoundsV>,
    pub wb_g: Option<BoundsV>,
    pub wb_b: Option<BoundsV>,
    pub offset: BoundsV,
    pub auto_max_gain: BoundsV,
    pub auto_max_exposure: BoundsV,
    pub auto_target_brightness: BoundsV,
    pub frame_limit: BoundsV,
    pub usb_bandwidth_limit: BoundsV,
    pub cooler_power: Option<BoundsV>,
    pub target_temperature: Option<BoundsV>,
    pub heater_power: Option<BoundsV>,
    pub fan_power: Option<BoundsV>,
}

impl View for AllConfigBounds {
    type V = AllBoundsV;

    open spec fn view(&self) -> AllBoundsV {
        AllBoundsV {
            exposure: self.exposure@,
            gain: self.gain@,
            wb_r: view_opt_bounds(self.wb_r),
            wb_g: view_opt_bounds(self.wb_g),
            wb_b: view_opt_bounds(self.wb_b),
            offset: self.offset@,
            auto_max_gain: self.auto_max_gain@,
            auto_max_exposure: self.auto_max_exposure@,
            auto_target_brightness: self.auto_target_brightness@,
            frame_limit: self.frame_limit@,
            usb_bandwidth_limit: self.usb_bandwidth_limit@,
            cooler_power: view_opt_bounds(self.cooler_power),
            target_temperature: view_opt_bounds(self.target_temperature),
            heater_power: view_opt_bounds(self.heater_power),
            fan_power: view_opt_bounds(self.fan_power),
        }
    }
}

/// Whether a collected snapshot carries every mandatory slot: the slots
/// every device exposes regardless of hardware variant.
pub open spec fn mandatory_present(p: OptionalBoundsV) -> bool {
    &&& p.exposure is Some
    &&& p.gain is Some
    &&& p.offset is Some
    &&& p.auto_max_gain is Some
    &&& p.auto_max_exposure is Some
    &&& p.auto_target_brightness is Some
    &&& p.frame_limit is Some
    &&& p.usb_bandwidth_limit is Some
}

/// Whether a collected snapshot carries every slot, the hardware-
/// dependent ones included.
pub open spec fn all_present(p: OptionalBoundsV) -> bool {
    &&& mandatory_present(p)
    &&& p.wb_r is Some
    &&& p.wb_g is Some
    &&& p.wb_b is Some
    &&& p.cooler_power is Some
    &&& p.target_temperature is Some
    &&& p.heater_power is Some
    &&& p.fan_power is Some
}

/// The full snapshot a collected one promotes to once the mandatory
/// slots are known present.
pub open spec fn promote_bounds(p: OptionalBoundsV) -> AllBoundsV
    recommends
        mandatory_present(p),
{
    AllBoundsV {
        exposure: p.exposure.unwrap(),
        gain: p.gain.unwrap(),
        wb_r: p.wb_r,
        wb_g: p.wb_g,
        wb_b: p.wb_b,
        offset: p.offset.unwrap(),
        auto_max_gain: p.auto_max_gain.unwrap(),
        auto_max_exposure: p.auto_max_exposure.unwrap(),
        auto_target_brightness: p.auto_target_brightness.unwrap(),
        frame_limit: p.frame_limit.unwrap(),
        usb_bandwidth_limit: p.usb_bandwidth_limit.unwrap(),
        cooler_power: p.cooler_power,
        target_temperature: p.target_temperature,
        heater_power: p.heater_power,
        fan_power: p.fan_power,
    }
}

impl AllConfigBounds {
    /// Collects the bounds snapshot and fails it whole if any mandatory
    /// slot is absent; the hardware-dependent slots stay optional so
    /// that monochrome or non-cooled devices are not wrongly rejected.
    pub fn from_attributes(attrs: &Vec<RawConfigAttributes>) -> (r: Result<
        AllConfigBounds,
        Error,
    >)
        requires
            forall|i: int| 0 <= i < attrs@.len() ==> attr_tag_consistent(#[trigger] attrs@[i]),
        ensures
            mandatory_present(collect_bounds(attrs@)) ==> (r matches Ok(b) && b@ == promote_bounds(
                collect_bounds(attrs@),
            )),
            !mandatory_present(collect_bounds(attrs@)) ==> r == Err::<AllConfigBounds, Error>(
                Error::InvalidConfig,
            ),
    {
        let collected = OptionalConfigBounds::from_attributes(attrs);
        Self::promote(collected)
    }

    /// Promotes a collected snapshot, failing it whole if any mandatory
    /// slot is absent.
    pub fn promote(collected: OptionalConfigBounds) -> (r: Result<AllConfigBounds, Error>)
        ensures
            mandatory_present(collected@) ==> (r matches Ok(b) && b@ == promote_bounds(
                collected@,
            )),
            !mandatory_present(collected@) ==> r == Err::<AllConfigBounds, Error>(
                Error::InvalidConfig,
            ),
    {
        match (collected.exposure,
            collected.gain,
            collected.offset,
            collected.auto_max_gain,
            collected.auto_max_exposure,
            collected.auto_target_brightness,
            collected.frame_limit,
            collected.usb_bandwidth_limit,
        ) {
            (
                Some(exposure),
                Some(gain),
                Some(offset),
                Some(auto_max_gain),
                Some(auto_max_exposure),
                Some(auto_target_brightness),
                Some(frame_limit),
                Some(usb_bandwidth_limit),
            ) => Ok(
                AllConfigBounds {
                    exposure,
                    gain,
                    wb_r: collected.wb_r,
                    wb_g: collected.wb_g,
                    wb_b: collected.wb_b,
                    offset,
                    auto_max_gain,
                    auto_max_exposure,
                    auto_target_brightness,
                    frame_limit,
                    usb_bandwidth_limit,
                    cooler_power: collected.cooler_power,
                    target_temperature: collected.target_temperature,
                    heater_power: collected.heater_power,
                    fan_power: collected.fan_power,
                },
            ),
            _ => Err(Error::InvalidConfig),
        }
    }

    /// The stricter opt-in validation: fails the snapshot unless every
    /// slot, the hardware-dependent ones included, is present.
    pub fn from_attributes_strict(attrs: &Vec<RawConfigAttributes>) -> (r: Result<
        AllConfigBounds,
        Error,
    >)
        requires
            forall|i: int| 0 <= i < attrs@.len() ==> attr_tag_consistent(#[trigger] attrs@[i]),
        ensures
            all_present(collect_bounds(attrs@)) ==> (r matches Ok(b) && b@ == promote_bounds(
                collect_bounds(attrs@),
            )),
            !all_present(collect_bounds(attrs@)) ==> r == Err::<AllConfigBounds, Error>(
                Error::InvalidConfig,
            ),
    {
        let collected = OptionalConfigBounds::from_attributes(attrs);
        let complete = collected.wb_r.is_some() && collected.wb_g.is_some()
            && collected.wb_b.is_some() && collected.cooler_power.is_some()
            && collected.target_temperature.is_some() && collected.heater_power.is_some()
            && collected.fan_power.is_some();
        if !complete {
            return Err(Error::InvalidConfig);
        }
        Self::promote(collected)
    }
}

} // verus!
