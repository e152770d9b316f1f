//! The boundary with the vendor driver: a blocking, single-device-at-a-
//! time procedural interface returning integer status codes, zero for
//! success. Every operation is paired with a ghost transition function
//! over the implementation's mathematical view, so that callers can be
//! verified against exactly what the driver is assumed to do; the
//! ensured clauses state no more than the vendor interface promises
//! (valid status codes, non-negative counts and sizes, well-formed
//! records on success).

use vstd::prelude::*;

use crate::config::attr_tag_consistent;
use crate::config::RawConfigAttributes;
use crate::error::is_error_status;
use crate::properties::raw_props_wf;
use crate::properties::ImageFormat;
use crate::properties::RawCameraProperties;
use crate::value::RawValue;

verus! {

/// Driver code for a device that is not open.
pub const STATE_CLOSED: i32 = 0;

/// Driver code for a device that is open and idle.
pub const STATE_OPENED: i32 = 1;

/// Driver code for a device with an exposure in progress.
pub const STATE_EXPOSING: i32 = 2;

/// The device state the driver reports.
#[derive(Debug, Copy, Clone, Hash, PartialEq, Eq, Structural)]
pub enum CameraState {
    Closed,
    Opened,
    Exposing,
}

/// True of every status code a driver operation may return.
pub open spec fn is_status(s: i32) -> bool {
    s == 0 || is_error_status(s)
}

/// The vendor driver interface. An implementation defines its own
/// mathematical view together with one ghost transition function per
/// operation; each operation is then bound to its transition exactly.
/// The crate's verified in-memory implementation is
/// [`crate::sim::SimDriver`].
pub trait Driver: View + Sized {
    /// Well-formedness of the driver's state; every operation preserves
    /// it.
    spec fn inv(v: Self::V) -> bool;

    /// Transition of [`Driver::camera_count`]: next state and the count.
    spec fn m_camera_count(v: Self::V) -> (Self::V, i32);

    /// Transition of [`Driver::camera_properties`]: next state, status,
    /// and the property record on success.
    spec fn m_camera_properties(v: Self::V, index: i32) -> (Self::V, i32, Option<
        RawCameraProperties,
    >);

    /// Transition of [`Driver::open_camera`].
    spec fn m_open_camera(v: Self::V, id: i32) -> (Self::V, i32);

    /// Transition of [`Driver::init_camera`].
    spec fn m_init_camera(v: Self::V, id: i32) -> (Self::V, i32);

    /// Transition of [`Driver::close_camera`].
    spec fn m_close_camera(v: Self::V, id: i32) -> (Self::V, i32);

    /// Transition of [`Driver::camera_state`]: next state, status, and
    /// the reported device state.
    spec fn m_camera_state(v: Self::V, id: i32) -> (Self::V, i32, CameraState);

    /// Transition of [`Driver::start_exposure`].
    spec fn m_start_exposure(v: Self::V, id: i32, continuous: bool) -> (Self::V, i32);

    /// Transition of [`Driver::stop_exposure`].
    spec fn m_stop_exposure(v: Self::V, id: i32) -> (Self::V, i32);

    /// Transition of [`Driver::image_ready`]: next state, status, and
    /// whether a frame is ready.
    spec fn m_image_ready(v: Self::V, id: i32) -> (Self::V, i32, bool);

    /// Transition of [`Driver::get_image_data`]: next state, status, and
    /// the buffer contents after the call, as a function of the buffer
    /// contents before it.
    spec fn m_get_image_data(v: Self::V, id: i32, buf: Seq<u8>, timeout_ms: i32) -> (
        Self::V,
        i32,
        Seq<u8>,
    );

    /// Transition of [`Driver::set_image_size`].
    spec fn m_set_image_size(v: Self::V, id: i32, width: i32, height: i32) -> (Self::V, i32);

    /// Transition of [`Driver::get_image_size`]: next state, status,
    /// width, height.
    spec fn m_get_image_size(v: Self::V, id: i32) -> (Self::V, i32, i32, i32);

    /// Transition of [`Driver::set_image_start_pos`].
    spec fn m_set_image_start_pos(v: Self::V, id: i32, start_x: i32, start_y: i32) -> (
        Self::V,
        i32,
    );

    /// Transition of [`Driver::get_image_start_pos`]: next state,
    /// status, start x, start y.
    spec fn m_get_image_start_pos(v: Self::V, id: i32) -> (Self::V, i32, i32, i32);

    /// Transition of [`Driver::set_image_bin`].
    spec fn m_set_image_bin(v: Self::V, id: i32, bin: i32) -> (Self::V, i32);

    /// Transition of [`Driver::get_image_bin`]: next state, status, bin.
    spec fn m_get_image_bin(v: Self::V, id: i32) -> (Self::V, i32, i32);

    /// Transition of [`Driver::set_image_format`].
    spec fn m_set_image_format(v: Self::V, id: i32, format_code: i32) -> (Self::V, i32);

    /// Transition of [`Driver::get_image_format`]: next state, status,
    /// format code.
    spec fn m_get_image_format(v: Self::V, id: i32) -> (Self::V, i32, i32);

    /// Transition of [`Driver::get_configs_count`]: next state, status,
    /// slot count.
    spec fn m_get_configs_count(v: Self::V, id: i32) -> (Self::V, i32, i32);

    /// Transition of [`Driver::get_config_attributes`]: next state,
    /// status, and the attribute record on success.
    spec fn m_get_config_attributes(v: Self::V, id: i32, index: i32) -> (Self::V, i32, Option<
        RawConfigAttributes,
    >);

    /// Transition of [`Driver::set_config`].
    spec fn m_set_config(v: Self::V, id: i32, config_code: i32, value: RawValue, auto: bool) -> (
        Self::V,
        i32,
    );

    /// Transition of [`Driver::get_config`]: next state, status, and the
    /// untyped value cell with the is-automatic flag on success.
    spec fn m_get_config(v: Self::V, id: i32, config_code: i32) -> (Self::V, i32, Option<
        (RawValue, bool),
    >);

    /// How many devices are attached.
    fn camera_count(&mut self) -> (r: i32)
        requires
            Self::inv(old(self)@),
        ensures
            Self::inv(final(self)@),
            (final(self)@, r) == Self::m_camera_count(old(self)@),
            r >= 0,
    ;

    /// The property record of the device at an enumeration index.
    fn camera_properties(&mut self, index: i32) -> (r: (i32, Option<RawCameraProperties>))
        requires
            Self::inv(old(self)@),
        ensures
            Self::inv(final(self)@),
            final(self)@ == Self::m_camera_properties(old(self)@, index).0,
            r.0 == Self::m_camera_properties(old(self)@, index).1,
            r.1 == Self::m_camera_properties(old(self)@, index).2,
            is_status(r.0),
            (r.0 == 0) == (r.1 is Some),
            r.1 matches Some(p) ==> raw_props_wf(p),
    ;

    /// Opens the device with a driver-assigned identifier.
    fn open_camera(&mut self, id: i32) -> (r: i32)
        requires
            Self::inv(old(self)@),
        ensures
            Self::inv(final(self)@),
            (final(self)@, r) == Self::m_open_camera(old(self)@, id),
            is_status(r),
    ;

    /// Initializes an opened device; must succeed before per-device
    /// operations are used.
    fn init_camera(&mut self, id: i32) -> (r: i32)
        requires
            Self::inv(old(self)@),
        ensures
            Self::inv(final(self)@),
            (final(self)@, r) == Self::m_init_camera(old(self)@, id),
            is_status(r),
    ;

    /// Closes the device.
    fn close_camera(&mut self, id: i32) -> (r: i32)
        requires
            Self::inv(old(self)@),
        ensures
            Self::inv(final(self)@),
            (final(self)@, r) == Self::m_close_camera(old(self)@, id),
            is_status(r),
    ;

    /// The device's current lifecycle state.
    fn camera_state(&mut self, id: i32) -> (r: (i32, CameraState))
        requires
            Self::inv(old(self)@),
        ensures
            Self::inv(final(self)@),
            final(self)@ == Self::m_camera_state(old(self)@, id).0,
            r.0 == Self::m_camera_state(old(self)@, id).1,
            r.1 == Self::m_camera_state(old(self)@, id).2,
            is_status(r.0),
    ;

    /// Starts an exposure: continuous for streaming, single-frame
    /// otherwise.
    fn start_exposure(&mut self, id: i32, continuous: bool) -> (r: i32)
        requires
            Self::inv(old(self)@),
        ensures
            Self::inv(final(self)@),
            (final(self)@, r) == Self::m_start_exposure(old(self)@, id, continuous),
            is_status(r),
    ;

    /// Stops an exposure in progress.
    fn stop_exposure(&mut self, id: i32) -> (r: i32)
        requires
            Self::inv(old(self)@),
        ensures
            Self::inv(final(self)@),
            (final(self)@, r) == Self::m_stop_exposure(old(self)@, id),
            is_status(r),
    ;

    /// Whether frame data is ready to be retrieved.
    fn image_ready(&mut self, id: i32) -> (r: (i32, bool))
        requires
            Self::inv(old(self)@),
        ensures
            Self::inv(final(self)@),
            final(self)@ == Self::m_image_ready(old(self)@, id).0,
            r.0 == Self::m_image_ready(old(self)@, id).1,
            r.1 == Self::m_image_ready(old(self)@, id).2,
            is_status(r.0),
    ;

    /// Blocks for the next frame, bounded by a timeout in milliseconds
    /// (negative for unbounded), filling the caller's buffer. The buffer
    /// keeps its length whatever the outcome.
    fn get_image_data(&mut self, id: i32, buffer: &mut Vec<u8>, timeout_ms: i32) -> (r: i32)
        requires
            Self::inv(old(self)@),
        ensures
            Self::inv(final(self)@),
            final(self)@ == Self::m_get_image_data(old(self)@, id, old(buffer)@, timeout_ms).0,
            r == Self::m_get_image_data(old(self)@, id, old(buffer)@, timeout_ms).1,
            final(buffer)@ == Self::m_get_image_data(old(self)@, id, old(buffer)@, timeout_ms).2,
            final(buffer)@.len() == old(buffer)@.len(),
            is_status(r),
    ;

    /// Applies the image extent, in current-binning-adjusted pixels.
    fn set_image_size(&mut self, id: i32, width: i32, height: i32) -> (r: i32)
        requires
            Self::inv(old(self)@),
        ensures
            Self::inv(final(self)@),
            (final(self)@, r) == Self::m_set_image_size(old(self)@, id, width, height),
            is_status(r),
    ;

    /// The current image extent; non-negative on success.
    fn get_image_size(&mut self, id: i32) -> (r: (i32, i32, i32))
        requires
            Self::inv(old(self)@),
        ensures
            Self::inv(final(self)@),
            final(self)@ == Self::m_get_image_size(old(self)@, id).0,
            r.0 == Self::m_get_image_size(old(self)@, id).1,
            r.1 == Self::m_get_image_size(old(self)@, id).2,
            r.2 == Self::m_get_image_size(old(self)@, id).3,
            is_status(r.0),
            r.0 == 0 ==> r.1 >= 0 && r.2 >= 0,
    ;

    /// Applies the image start position.
    fn set_image_start_pos(&mut self, id: i32, start_x: i32, start_y: i32) -> (r: i32)
        requires
            Self::inv(old(self)@),
        ensures
            Self::inv(final(self)@),
            (final(self)@, r) == Self::m_set_image_start_pos(old(self)@, id, start_x, start_y),
            is_status(r),
    ;

    /// The current image start position.
    fn get_image_start_pos(&mut self, id: i32) -> (r: (i32, i32, i32))
        requires
            Self::inv(old(self)@),
        ensures
            Self::inv(final(self)@),
            final(self)@ == Self::m_get_image_start_pos(old(self)@, id).0,
            r.0 == Self::m_get_image_start_pos(old(self)@, id).1,
            r.1 == Self::m_get_image_start_pos(old(self)@, id).2,
            r.2 == Self::m_get_image_start_pos(old(self)@, id).3,
            is_status(r.0),
    ;

    /// Applies a binning factor; on success the driver rescales the
    /// current geometry.
    fn set_image_bin(&mut self, id: i32, bin: i32) -> (r: i32)
        requires
            Self::inv(old(self)@),
        ensures
            Self::inv(final(self)@),
            (final(self)@, r) == Self::m_set_image_bin(old(self)@, id, bin),
            is_status(r),
    ;

    /// The current binning factor; positive on success.
    fn get_image_bin(&mut self, id: i32) -> (r: (i32, i32))
        requires
            Self::inv(old(self)@),
        ensures
            Self::inv(final(self)@),
            final(self)@ == Self::m_get_image_bin(old(self)@, id).0,
            r.0 == Self::m_get_image_bin(old(self)@, id).1,
            r.1 == Self::m_get_image_bin(old(self)@, id).2,
            is_status(r.0),
            r.0 == 0 ==> r.1 >= 1,
    ;

    /// Applies a pixel format by its driver code.
    fn set_image_format(&mut self, id: i32, format_code: i32) -> (r: i32)
        requires
            Self::inv(old(self)@),
        ensures
            Self::inv(final(self)@),
            (final(self)@, r) == Self::m_set_image_format(old(self)@, id, format_code),
            is_status(r),
    ;

    /// The current pixel format's driver code; a recognized code on
    /// success.
    fn get_image_format(&mut self, id: i32) -> (r: (i32, i32))
        requires
            Self::inv(old(self)@),
        ensures
            Self::inv(final(self)@),
            final(self)@ == Self::m_get_image_format(old(self)@, id).0,
            r.0 == Self::m_get_image_format(old(self)@, id).1,
            r.1 == Self::m_get_image_format(old(self)@, id).2,
            is_status(r.0),
            r.0 == 0 ==> ImageFormat::spec_from_code(r.1) is Some,
    ;

    /// How many configuration slots the device exposes; non-negative on
    /// success.
    fn get_configs_count(&mut self, id: i32) -> (r: (i32, i32))
        requires
            Self::inv(old(self)@),
        ensures
            Self::inv(final(self)@),
            final(self)@ == Self::m_get_configs_count(old(self)@, id).0,
            r.0 == Self::m_get_configs_count(old(self)@, id).1,
            r.1 == Self::m_get_configs_count(old(self)@, id).2,
            is_status(r.0),
            r.0 == 0 ==> r.1 >= 0,
    ;

    /// The attribute record of the configuration slot at an index; on
    /// success the record's type tag is consistent with its slot.
    fn get_config_attributes(&mut self, id: i32, index: i32) -> (r: (
        i32,
        Option<RawConfigAttributes>,
    ))
        requires
            Self::inv(old(self)@),
        ensures
            Self::inv(final(self)@),
            final(self)@ == Self::m_get_config_attributes(old(self)@, id, index).0,
            r.0 == Self::m_get_config_attributes(old(self)@, id, index).1,
            r.1 == Self::m_get_config_attributes(old(self)@, id, index).2,
            is_status(r.0),
            (r.0 == 0) == (r.1 is Some),
            r.1 matches Some(a) ==> attr_tag_consistent(a),
    ;

    /// Writes a configuration slot's value with its is-automatic flag.
    fn set_config(&mut self, id: i32, config_code: i32, value: RawValue, auto: bool) -> (r: i32)
        requires
            Self::inv(old(self)@),
        ensures
            Self::inv(final(self)@),
            (final(self)@, r) == Self::m_set_config(old(self)@, id, config_code, value, auto),
            is_status(r),
    ;

    /// Reads a configuration slot's untyped value cell and is-automatic
    /// flag.
    fn get_config(&mut self, id: i32, config_code: i32) -> (r: (i32, Option<(RawValue, bool)>))
        requires
            Self::inv(old(self)@),
        ensures
            Self::inv(final(self)@),
            final(self)@ == Self::m_get_config(old(self)@, id, config_code).0,
            r.0 == Self::m_get_config(old(self)@, id, config_code).1,
            r.1 == Self::m_get_config(old(self)@, id, config_code).2,
            is_status(r.0),
            (r.0 == 0) == (r.1 is Some),
    ;
}

} // verus!
