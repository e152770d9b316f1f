//! Typed accessors for every configuration slot: each pairs its slot
//! with the slot's statically known value type, so callers never touch
//! the driver's untyped value cell.

use vstd::prelude::*;

use crate::camera::bool_config_outcome;
use crate::camera::float_config_outcome;
use crate::camera::int_config_outcome;
use crate::camera::set_config_outcome;
use crate::camera::Camera;
use crate::config::ConfigKind;
use crate::driver::Driver;
use crate::error::Error;
use crate::value::ConfigValue;

verus! {

impl Camera {
    /// Reads whether hardware binning is enabled.
    pub fn hardware_bin<D: Driver>(&self, d: &mut D) -> (r: Result<bool, Error>)
        requires
            D::inv(old(d)@),
        ensures
            D::inv(final(d)@),
            (final(d)@, r) == bool_config_outcome::<D>(self@, old(d)@, ConfigKind::HardwareBin),
    {
        self.config_bool(d, ConfigKind::HardwareBin)
    }

    /// Reads the current sensor temperature in Celsius, as the bit pattern of the driver's 64-bit float (read-only slot).
    pub fn temperature<D: Driver>(&self, d: &mut D) -> (r: Result<u64, Error>)
        requires
            D::inv(old(d)@),
        ensures
            D::inv(final(d)@),
            (final(d)@, r) == float_config_outcome::<D>(self@, old(d)@, ConfigKind::Temperature),
    {
        self.config_float_bits(d, ConfigKind::Temperature)
    }

    /// Reads the red pixels coefficient of white balance.
    pub fn wb_r<D: Driver>(&self, d: &mut D) -> (r: Result<i64, Error>)
        requires
            D::inv(old(d)@),
        ensures
            D::inv(final(d)@),
            (final(d)@, r) == int_config_outcome::<D>(self@, old(d)@, ConfigKind::WbR),
    {
        self.config_int(d, ConfigKind::WbR)
    }

    /// Reads the green pixels coefficient of white balance.
    pub fn wb_g<D: Driver>(&self, d: &mut D) -> (r: Result<i64, Error>)
        requires
            D::inv(old(d)@),
        ensures
            D::inv(final(d)@),
            (final(d)@, r) == int_config_outcome::<D>(self@, old(d)@, ConfigKind::WbG),
    {
        self.config_int(d, ConfigKind::WbG)
    }

    /// Reads the blue pixels coefficient of white balance.
    pub fn wb_b<D: Driver>(&self, d: &mut D) -> (r: Result<i64, Error>)
        requires
            D::inv(old(d)@),
        ensures
            D::inv(final(d)@),
            (final(d)@, r) == int_config_outcome::<D>(self@, old(d)@, ConfigKind::WbB),
    {
        self.config_int(d, ConfigKind::WbB)
    }

    /// Reads the camera offset.
    pub fn offset<D: Driver>(&self, d: &mut D) -> (r: Result<i64, Error>)
        requires
            D::inv(old(d)@),
        ensures
            D::inv(final(d)@),
            (final(d)@, r) == int_config_outcome::<D>(self@, old(d)@, ConfigKind::Offset),
    {
        self.config_int(d, ConfigKind::Offset)
    }

    /// Reads the maximum gain when auto-adjusting.
    pub fn auto_max_gain<D: Driver>(&self, d: &mut D) -> (r: Result<i64, Error>)
        requires
            D::inv(old(d)@),
        ensures
            D::inv(final(d)@),
            (final(d)@, r) == int_config_outcome::<D>(self@, old(d)@, ConfigKind::AutoexpoMaxGain),
    {
        self.config_int(d, ConfigKind::AutoexpoMaxGain)
    }

    /// Reads the maximum exposure when auto-adjusting, in milliseconds.
    pub fn auto_max_exposure_ms<D: Driver>(&self, d: &mut D) -> (r: Result<i64, Error>)
        requires
            D::inv(old(d)@),
        ensures
            D::inv(final(d)@),
            (final(d)@, r) == int_config_outcome::<D>(self@, old(d)@, ConfigKind::AutoexpoMaxExposure),
    {
        self.config_int(d, ConfigKind::AutoexpoMaxExposure)
    }

    /// Reads the target brightness when auto-adjusting.
    pub fn auto_target_brightness<D: Driver>(&self, d: &mut D) -> (r: Result<i64, Error>)
        requires
            D::inv(old(d)@),
        ensures
            D::inv(final(d)@),
            (final(d)@, r) == int_config_outcome::<D>(self@, old(d)@, ConfigKind::AutoexpoBrightness),
    {
        self.config_int(d, ConfigKind::AutoexpoBrightness)
    }

    /// Reads ST4 guide north; generally DEC+ on the mount.
    pub fn guide_north<D: Driver>(&self, d: &mut D) -> (r: Result<bool, Error>)
        requires
            D::inv(old(d)@),
        ensures
            D::inv(final(d)@),
            (final(d)@, r) == bool_config_outcome::<D>(self@, old(d)@, ConfigKind::GuideNorth),
    {
        self.config_bool(d, ConfigKind::GuideNorth)
    }

    /// Reads ST4 guide south; generally DEC- on the mount.
    pub fn guide_south<D: Driver>(&self, d: &mut D) -> (r: Result<bool, Error>)
        requires
            D::inv(old(d)@),
        ensures
            D::inv(final(d)@),
            (final(d)@, r) == bool_config_outcome::<D>(self@, old(d)@, ConfigKind::GuideSouth),
    {
        self.config_bool(d, ConfigKind::GuideSouth)
    }

    /// Reads ST4 guide east; generally RA+ on the mount.
    pub fn guide_east<D: Driver>(&self, d: &mut D) -> (r: Result<bool, Error>)
        requires
            D::inv(old(d)@),
        ensures
            D::inv(final(d)@),
            (final(d)@, r) == bool_config_outcome::<D>(self@, old(d)@, ConfigKind::GuideEast),
    {
        self.config_bool(d, ConfigKind::GuideEast)
    }

    /// Reads ST4 guide west; generally RA- on the mount.
    pub fn guide_west<D: Driver>(&self, d: &mut D) -> (r: Result<bool, Error>)
        requires
            D::inv(old(d)@),
        ensures
            D::inv(final(d)@),
            (final(d)@, r) == bool_config_outcome::<D>(self@, old(d)@, ConfigKind::GuideWest),
    {
        self.config_bool(d, ConfigKind::GuideWest)
    }

    /// Reads e/ADU, which changes with gain, as the bit pattern of the driver's 64-bit float (read-only slot).
    pub fn egain<D: Driver>(&self, d: &mut D) -> (r: Result<u64, Error>)
        requires
            D::inv(old(d)@),
        ensures
            D::inv(final(d)@),
            (final(d)@, r) == float_config_outcome::<D>(self@, old(d)@, ConfigKind::Egain),
    {
        self.config_float_bits(d, ConfigKind::Egain)
    }

    /// Reads the cooler power percentage [0-100%], on cooled cameras (read-only slot).
    pub fn cooler_power<D: Driver>(&self, d: &mut D) -> (r: Result<i64, Error>)
        requires
            D::inv(old(d)@),
        ensures
            D::inv(final(d)@),
            (final(d)@, r) == int_config_outcome::<D>(self@, old(d)@, ConfigKind::CoolerPower),
    {
        self.config_int(d, ConfigKind::CoolerPower)
    }

    /// Reads the camera target temperature in Celsius.
    pub fn target_temp<D: Driver>(&self, d: &mut D) -> (r: Result<i64, Error>)
        requires
            D::inv(old(d)@),
        ensures
            D::inv(final(d)@),
            (final(d)@, r) == int_config_outcome::<D>(self@, old(d)@, ConfigKind::TargetTemp),
    {
        self.config_int(d, ConfigKind::TargetTemp)
    }

    /// Reads whether the cooler (and fan) is on.
    pub fn cooler<D: Driver>(&self, d: &mut D) -> (r: Result<bool, Error>)
        requires
            D::inv(old(d)@),
        ensures
            D::inv(final(d)@),
            (final(d)@, r) == bool_config_outcome::<D>(self@, old(d)@, ConfigKind::Cooler),
    {
        self.config_bool(d, ConfigKind::Cooler)
    }

    /// Reads the legacy state of the lens heater (read-only slot).
    pub fn heater<D: Driver>(&self, d: &mut D) -> (r: Result<bool, Error>)
        requires
            D::inv(old(d)@),
        ensures
            D::inv(final(d)@),
            (final(d)@, r) == bool_config_outcome::<D>(self@, old(d)@, ConfigKind::Heater),
    {
        self.config_bool(d, ConfigKind::Heater)
    }

    /// Reads the lens heater power percentage [0-100%].
    pub fn heater_power<D: Driver>(&self, d: &mut D) -> (r: Result<i64, Error>)
        requires
            D::inv(old(d)@),
        ensures
            D::inv(final(d)@),
            (final(d)@, r) == int_config_outcome::<D>(self@, old(d)@, ConfigKind::HeaterPower),
    {
        self.config_int(d, ConfigKind::HeaterPower)
    }

    /// Reads the radiator fan power percentage [0-100%].
    pub fn fan_power<D: Driver>(&self, d: &mut D) -> (r: Result<i64, Error>)
        requires
            D::inv(old(d)@),
        ensures
            D::inv(final(d)@),
            (final(d)@, r) == int_config_outcome::<D>(self@, old(d)@, ConfigKind::FanPower),
    {
        self.config_int(d, ConfigKind::FanPower)
    }

    /// Reads the frame rate limit in [0, 2000]; 0 means no limit.
    pub fn frame_limit<D: Driver>(&self, d: &mut D) -> (r: Result<i64, Error>)
        requires
            D::inv(old(d)@),
        ensures
            D::inv(final(d)@),
            (final(d)@, r) == int_config_outcome::<D>(self@, old(d)@, ConfigKind::FrameLimit),
    {
        self.config_int(d, ConfigKind::FrameLimit)
    }

    /// Reads whether high quality image is on, for cameras without DDR; reduces waviness and stripes.
    pub fn hqi<D: Driver>(&self, d: &mut D) -> (r: Result<bool, Error>)
        requires
            D::inv(old(d)@),
        ensures
            D::inv(final(d)@),
            (final(d)@, r) == bool_config_outcome::<D>(self@, old(d)@, ConfigKind::Hqi),
    {
        self.config_bool(d, ConfigKind::Hqi)
    }

    /// Reads the USB bandwidth usage limit [0-100%].
    pub fn usb_bandwidth_limit<D: Driver>(&self, d: &mut D) -> (r: Result<i64, Error>)
        requires
            D::inv(old(d)@),
        ensures
            D::inv(final(d)@),
            (final(d)@, r) == int_config_outcome::<D>(self@, old(d)@, ConfigKind::UsbBandwidthLimit),
    {
        self.config_int(d, ConfigKind::UsbBandwidthLimit)
    }

    /// Reads whether binning takes the sum of pixels rather than the average.
    pub fn pixel_bin_sum<D: Driver>(&self, d: &mut D) -> (r: Result<bool, Error>)
        requires
            D::inv(old(d)@),
        ensures
            D::inv(final(d)@),
            (final(d)@, r) == bool_config_outcome::<D>(self@, old(d)@, ConfigKind::PixelBinSum),
    {
        self.config_bool(d, ConfigKind::PixelBinSum)
    }

    /// Reads whether color binning uses neighbour pixels, losing the bayer pattern.
    pub fn mono_bin<D: Driver>(&self, d: &mut D) -> (r: Result<bool, Error>)
        requires
            D::inv(old(d)@),
        ensures
            D::inv(final(d)@),
            (final(d)@, r) == bool_config_outcome::<D>(self@, old(d)@, ConfigKind::MonoBin),
    {
        self.config_bool(d, ConfigKind::MonoBin)
    }

    /// Sets hardware binning on or off.
    pub fn set_hardware_bin<D: Driver>(&mut self, d: &mut D, value: bool) -> (r: Result<(), Error>)
        requires
            D::inv(old(d)@),
        ensures
            D::inv(final(d)@),
            final(self)@ == old(self)@,
            (final(d)@, r) == set_config_outcome::<D>(
                old(self)@,
                old(d)@,
                ConfigKind::HardwareBin,
                ConfigValue::Bool(value),
                false,
            ),
    {
        self.set_config_value(d, ConfigKind::HardwareBin, ConfigValue::Bool(value), false)
    }

    /// Sets the red pixels coefficient of white balance.
    pub fn set_wb_r<D: Driver>(&mut self, d: &mut D, value: i64) -> (r: Result<(), Error>)
        requires
            D::inv(old(d)@),
        ensures
            D::inv(final(d)@),
            final(self)@ == old(self)@,
            (final(d)@, r) == set_config_outcome::<D>(
                old(self)@,
                old(d)@,
                ConfigKind::WbR,
                ConfigValue::Int(value),
                false,
            ),
    {
        self.set_config_value(d, ConfigKind::WbR, ConfigValue::Int(value), false)
    }

    /// Sets the green pixels coefficient of white balance.
    pub fn set_wb_g<D: Driver>(&mut self, d: &mut D, value: i64) -> (r: Result<(), Error>)
        requires
            D::inv(old(d)@),
        ensures
            D::inv(final(d)@),
            final(self)@ == old(self)@,
            (final(d)@, r) == set_config_outcome::<D>(
                old(self)@,
                old(d)@,
                ConfigKind::WbG,
                ConfigValue::Int(value),
                false,
            ),
    {
        self.set_config_value(d, ConfigKind::WbG, ConfigValue::Int(value), false)
    }

    /// Sets the blue pixels coefficient of white balance.
    pub fn set_wb_b<D: Driver>(&mut self, d: &mut D, value: i64) -> (r: Result<(), Error>)
        requires
            D::inv(old(d)@),
        ensures
            D::inv(final(d)@),
            final(self)@ == old(self)@,
            (final(d)@, r) == set_config_outcome::<D>(
                old(self)@,
                old(d)@,
                ConfigKind::WbB,
                ConfigValue::Int(value),
                false,
            ),
    {
        self.set_config_value(d, ConfigKind::WbB, ConfigValue::Int(value), false)
    }

    /// Sets the camera offset.
    pub fn set_offset<D: Driver>(&mut self, d: &mut D, value: i64) -> (r: Result<(), Error>)
        requires
            D::inv(old(d)@),
        ensures
            D::inv(final(d)@),
            final(self)@ == old(self)@,
            (final(d)@, r) == set_config_outcome::<D>(
                old(self)@,
                old(d)@,
                ConfigKind::Offset,
                ConfigValue::Int(value),
                false,
            ),
    {
        self.set_config_value(d, ConfigKind::Offset, ConfigValue::Int(value), false)
    }

    /// Sets the maximum gain when auto-adjusting.
    pub fn set_auto_max_gain<D: Driver>(&mut self, d: &mut D, value: i64) -> (r: Result<(), Error>)
        requires
            D::inv(old(d)@),
        ensures
            D::inv(final(d)@),
            final(self)@ == old(self)@,
            (final(d)@, r) == set_config_outcome::<D>(
                old(self)@,
                old(d)@,
                ConfigKind::AutoexpoMaxGain,
                ConfigValue::Int(value),
                false,
            ),
    {
        self.set_config_value(d, ConfigKind::AutoexpoMaxGain, ConfigValue::Int(value), false)
    }

    /// Sets the maximum exposure when auto-adjusting, in milliseconds.
    pub fn set_auto_max_exposure_ms<D: Driver>(&mut self, d: &mut D, value: i64) -> (r: Result<(), Error>)
        requires
            D::inv(old(d)@),
        ensures
            D::inv(final(d)@),
            final(self)@ == old(self)@,
            (final(d)@, r) == set_config_outcome::<D>(
                old(self)@,
                old(d)@,
                ConfigKind::AutoexpoMaxExposure,
                ConfigValue::Int(value),
                false,
            ),
    {
        self.set_config_value(d, ConfigKind::AutoexpoMaxExposure, ConfigValue::Int(value), false)
    }

    /// Sets the target brightness when auto-adjusting.
    pub fn set_auto_target_brightness<D: Driver>(&mut self, d: &mut D, value: i64) -> (r: Result<(), Error>)
        requires
            D::inv(old(d)@),
        ensures
            D::inv(final(d)@),
            final(self)@ == old(self)@,
            (final(d)@, r) == set_config_outcome::<D>(
                old(self)@,
                old(d)@,
                ConfigKind::AutoexpoBrightness,
                ConfigValue::Int(value),
                false,
            ),
    {
        self.set_config_value(d, ConfigKind::AutoexpoBrightness, ConfigValue::Int(value), false)
    }

    /// Sets ST4 guide north; generally DEC+ on the mount.
    pub fn set_guide_north<D: Driver>(&mut self, d: &mut D, value: bool) -> (r: Result<(), Error>)
        requires
            D::inv(old(d)@),
        ensures
            D::inv(final(d)@),
            final(self)@ == old(self)@,
            (final(d)@, r) == set_config_outcome::<D>(
                old(self)@,
                old(d)@,
                ConfigKind::GuideNorth,
                ConfigValue::Bool(value),
                false,
            ),
    {
        self.set_config_value(d, ConfigKind::GuideNorth, ConfigValue::Bool(value), false)
    }

    /// Sets ST4 guide south; generally DEC- on the mount.
    pub fn set_guide_south<D: Driver>(&mut self, d: &mut D, value: bool) -> (r: Result<(), Error>)
        requires
            D::inv(old(d)@),
        ensures
            D::inv(final(d)@),
            final(self)@ == old(self)@,
            (final(d)@, r) == set_config_outcome::<D>(
                old(self)@,
                old(d)@,
                ConfigKind::GuideSouth,
                ConfigValue::Bool(value),
                false,
            ),
    {
        self.set_config_value(d, ConfigKind::GuideSouth, ConfigValue::Bool(value), false)
    }

    /// Sets ST4 guide east; generally RA+ on the mount.
    pub fn set_guide_east<D: Driver>(&mut self, d: &mut D, value: bool) -> (r: Result<(), Error>)
        requires
            D::inv(old(d)@),
        ensures
            D::inv(final(d)@),
            final(self)@ == old(self)@,
            (final(d)@, r) == set_config_outcome::<D>(
                old(self)@,
                old(d)@,
                ConfigKind::GuideEast,
                ConfigValue::Bool(value),
                false,
            ),
    {
        self.set_config_value(d, ConfigKind::GuideEast, ConfigValue::Bool(value), false)
    }

    /// Sets ST4 guide west; generally RA- on the mount.
    pub fn set_guide_west<D: Driver>(&mut self, d: &mut D, value: bool) -> (r: Result<(), Error>)
        requires
            D::inv(old(d)@),
        ensures
            D::inv(final(d)@),
            final(self)@ == old(self)@,
            (final(d)@, r) == set_config_outcome::<D>(
                old(self)@,
                old(d)@,
                ConfigKind::GuideWest,
                ConfigValue::Bool(value),
                false,
            ),
    {
        self.set_config_value(d, ConfigKind::GuideWest, ConfigValue::Bool(value), false)
    }

    /// Sets the camera target temperature in Celsius.
    pub fn set_target_temperature<D: Driver>(&mut self, d: &mut D, value: i64) -> (r: Result<(), Error>)
        requires
            D::inv(old(d)@),
        ensures
            D::inv(final(d)@),
            final(self)@ == old(self)@,
            (final(d)@, r) == set_config_outcome::<D>(
                old(self)@,
                old(d)@,
                ConfigKind::TargetTemp,
                ConfigValue::Int(value),
                false,
            ),
    {
        self.set_config_value(d, ConfigKind::TargetTemp, ConfigValue::Int(value), false)
    }

    /// Turns the cooler (and fan) on or off.
    pub fn set_cooler<D: Driver>(&mut self, d: &mut D, value: bool) -> (r: Result<(), Error>)
        requires
            D::inv(old(d)@),
        ensures
            D::inv(final(d)@),
            final(self)@ == old(self)@,
            (final(d)@, r) == set_config_outcome::<D>(
                old(self)@,
                old(d)@,
                ConfigKind::Cooler,
                ConfigValue::Bool(value),
                false,
            ),
    {
        self.set_config_value(d, ConfigKind::Cooler, ConfigValue::Bool(value), false)
    }

    /// Sets the legacy state of the lens heater.
    pub fn set_heater<D: Driver>(&mut self, d: &mut D, value: bool) -> (r: Result<(), Error>)
        requires
            D::inv(old(d)@),
        ensures
            D::inv(final(d)@),
            final(self)@ == old(self)@,
            (final(d)@, r) == set_config_outcome::<D>(
                old(self)@,
                old(d)@,
                ConfigKind::Heater,
                ConfigValue::Bool(value),
                false,
            ),
    {
        self.set_config_value(d, ConfigKind::Heater, ConfigValue::Bool(value), false)
    }

    /// Sets the lens heater power percentage [0-100%].
    pub fn set_heater_power<D: Driver>(&mut self, d: &mut D, value: i64) -> (r: Result<(), Error>)
        requires
            D::inv(old(d)@),
        ensures
            D::inv(final(d)@),
            final(self)@ == old(self)@,
            (final(d)@, r) == set_config_outcome::<D>(
                old(self)@,
                old(d)@,
                ConfigKind::HeaterPower,
                ConfigValue::Int(value),
                false,
            ),
    {
        self.set_config_value(d, ConfigKind::HeaterPower, ConfigValue::Int(value), false)
    }

    /// Sets the radiator fan power percentage [0-100%].
    pub fn set_fan_power<D: Driver>(&mut self, d: &mut D, value: i64) -> (r: Result<(), Error>)
        requires
            D::inv(old(d)@),
        ensures
            D::inv(final(d)@),
            final(self)@ == old(self)@,
            (final(d)@, r) == set_config_outcome::<D>(
                old(self)@,
                old(d)@,
                ConfigKind::FanPower,
                ConfigValue::Int(value),
                false,
            ),
    {
        self.set_config_value(d, ConfigKind::FanPower, ConfigValue::Int(value), false)
    }

    /// Sets the frame rate limit in [0, 2000]; 0 means no limit.
    pub fn set_frame_limit<D: Driver>(&mut self, d: &mut D, value: i64) -> (r: Result<(), Error>)
        requires
            D::inv(old(d)@),
        ensures
            D::inv(final(d)@),
            final(self)@ == old(self)@,
            (final(d)@, r) == set_config_outcome::<D>(
                old(self)@,
                old(d)@,
                ConfigKind::FrameLimit,
                ConfigValue::Int(value),
                false,
            ),
    {
        self.set_config_value(d, ConfigKind::FrameLimit, ConfigValue::Int(value), false)
    }

    /// Sets high quality image on or off, for cameras without DDR; on cameras with DDR it has no effect.
    pub fn set_hqi<D: Driver>(&mut self, d: &mut D, value: bool) -> (r: Result<(), Error>)
        requires
            D::inv(old(d)@),
        ensures
            D::inv(final(d)@),
            final(self)@ == old(self)@,
            (final(d)@, r) == set_config_outcome::<D>(
                old(self)@,
                old(d)@,
                ConfigKind::Hqi,
                ConfigValue::Bool(value),
                false,
            ),
    {
        self.set_config_value(d, ConfigKind::Hqi, ConfigValue::Bool(value), false)
    }

    /// Sets the USB bandwidth usage limit [0-100%].
    pub fn set_usb_bandwidth_limit<D: Driver>(&mut self, d: &mut D, value: i64) -> (r: Result<(), Error>)
        requires
            D::inv(old(d)@),
        ensures
            D::inv(final(d)@),
            final(self)@ == old(self)@,
            (final(d)@, r) == set_config_outcome::<D>(
                old(self)@,
                old(d)@,
                ConfigKind::UsbBandwidthLimit,
                ConfigValue::Int(value),
                false,
            ),
    {
        self.set_config_value(d, ConfigKind::UsbBandwidthLimit, ConfigValue::Int(value), false)
    }

    /// Sets whether binning takes the sum of pixels rather than the average; the default is the average.
    pub fn set_pixel_bin_sum<D: Driver>(&mut self, d: &mut D, value: bool) -> (r: Result<(), Error>)
        requires
            D::inv(old(d)@),
        ensures
            D::inv(final(d)@),
            final(self)@ == old(self)@,
            (final(d)@, r) == set_config_outcome::<D>(
                old(self)@,
                old(d)@,
                ConfigKind::PixelBinSum,
                ConfigValue::Bool(value),
                false,
            ),
    {
        self.set_config_value(d, ConfigKind::PixelBinSum, ConfigValue::Bool(value), false)
    }

    /// Sets whether color binning uses neighbour pixels, losing the bayer pattern.
    pub fn set_mono_bin<D: Driver>(&mut self, d: &mut D, value: bool) -> (r: Result<(), Error>)
        requires
            D::inv(old(d)@),
        ensures
            D::inv(final(d)@),
            final(self)@ == old(self)@,
            (final(d)@, r) == set_config_outcome::<D>(
                old(self)@,
                old(d)@,
                ConfigKind::MonoBin,
                ConfigValue::Bool(value),
                false,
            ),
    {
        self.set_config_value(d, ConfigKind::MonoBin, ConfigValue::Bool(value), false)
    }

}

} // verus!
