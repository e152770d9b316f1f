//! A verified in-memory driver: a deterministic, scriptable device table
//! that implements the vendor interface exactly as its ghost model says.
//! It records every call it receives, so tests can check which driver
//! calls an operation issued; scripted per-device outcomes (property
//! probe failures, initialize failures, frame sequences) let tests play
//! through multi-device and streaming scenarios.

use vstd::prelude::*;

use crate::config::attr_tag_consistent;
use crate::config::RawConfigAttributes;
use crate::driver::CameraState;
use crate::driver::Driver;
use crate::error::is_error_status;
use crate::error::STATUS_EXPOSURE_FAILED;
use crate::error::STATUS_EXPOSING;
use crate::error::STATUS_INVALID_ARGU;
use crate::error::STATUS_INVALID_CONFIG;
use crate::error::STATUS_INVALID_ID;
use crate::error::STATUS_INVALID_INDEX;
use crate::error::STATUS_NOT_OPENED;
use crate::error::STATUS_OK;
use crate::error::STATUS_OUT_OF_LIMIT;
use crate::error::STATUS_SIZE_LESS;
use crate::error::STATUS_TIMEOUT;
use crate::error::STATUS_CONF_CANNOT_READ;
use crate::error::STATUS_CONF_CANNOT_WRITE;
use crate::properties::bpp_of_code;
use crate::properties::decode_bins;
use crate::properties::frame_bytes;
use crate::properties::raw_props_wf;
use crate::properties::ImageFormat;
use crate::properties::RawCameraProperties;
use crate::properties::FORMAT_RAW8;
use crate::value::RawValue;

verus! {

/// One scripted outcome of a frame retrieval: a frame filled with one
/// byte value, or a failure with an error status.
#[derive(Debug, Copy, Clone, PartialEq, Eq, Structural)]
pub enum FrameOutcome {
    Frame(u8),
    Fail(i32),
}

/// One recorded driver call, with the arguments that identify it.
#[derive(Debug, Copy, Clone, PartialEq, Eq, Structural)]
pub enum DriverCall {
    CameraCount,
    CameraProperties(i32),
    OpenCamera(i32),
    InitCamera(i32),
    CloseCamera(i32),
    CameraState(i32),
    StartExposure(i32, bool),
    StopExposure(i32),
    ImageReady(i32),
    GetImageData(i32, i32),
    SetImageSize(i32, i32, i32),
    GetImageSize(i32),
    SetImageStartPos(i32, i32, i32),
    GetImageStartPos(i32),
    SetImageBin(i32, i32),
    GetImageBin(i32),
    SetImageFormat(i32, i32),
    GetImageFormat(i32),
    GetConfigsCount(i32),
    GetConfigAttributes(i32, i32),
    SetConfig(i32, i32, RawValue, bool),
    GetConfig(i32, i32),
}

/// One simulated device: its fixed property record, scripted failures,
/// lifecycle state, current geometry, configuration slots, and frame
/// script.
#[derive(Debug)]
pub struct SimDevice {
    /// The fixed property record; its camera id addresses the device.
    pub raw: RawCameraProperties,
    /// Nonzero: the per-index property query fails with this status.
    pub probe_status: i32,
    /// Nonzero: initialize fails with this status.
    pub init_status: i32,
    pub opened: bool,
    pub exposing: bool,
    /// Whether the running exposure was started as continuous.
    pub continuous: bool,
    pub width: i32,
    pub height: i32,
    pub start_x: i32,
    pub start_y: i32,
    pub bin: i32,
    pub format_code: i32,
    /// The configuration slots the device exposes, with their current
    /// values and is-automatic flags in parallel.
    pub attrs: Vec<RawConfigAttributes>,
    pub values: Vec<RawValue>,
    pub autos: Vec<bool>,
    /// The scripted outcomes of successive frame retrievals.
    pub frames: Vec<FrameOutcome>,
    /// How many scripted outcomes have been consumed.
    pub cursor: usize,
}

/// Mathematical view of one simulated device.
pub struct SimDeviceV {
    pub raw: RawCameraProperties,
    pub probe_status: i32,
    pub init_status: i32,
    pub opened: bool,
    pub exposing: bool,
    pub continuous: bool,
    pub width: i32,
    pub height: i32,
    pub start_x: i32,
    pub start_y: i32,
    pub bin: i32,
    pub format_code: i32,
    pub attrs: Seq<RawConfigAttributes>,
    pub values: Seq<RawValue>,
    pub autos: Seq<bool>,
    pub frames: Seq<FrameOutcome>,
    pub cursor: usize,
}

impl View for SimDevice {
    type V = SimDeviceV;

    open spec fn view(&self) -> SimDeviceV {
        SimDeviceV {
            raw: self.raw,
            probe_status: self.probe_status,
            init_status: self.init_status,
            opened: self.opened,
            exposing: self.exposing,
            continuous: self.continuous,
            width: self.width,
            height: self.height,
            start_x: self.start_x,
            start_y: self.start_y,
            bin: self.bin,
            format_code: self.format_code,
            attrs: self.attrs@,
            values: self.values@,
            autos: self.autos@,
            frames: self.frames@,
            cursor: self.cursor,
        }
    }
}

/// The device table with its call log.
#[derive(Debug)]
pub struct SimDriver {
    pub devices: Vec<SimDevice>,
    /// Every call received, oldest first.
    pub calls: Vec<DriverCall>,
}

/// Mathematical view of the simulated driver.
pub struct SimDriverV {
    pub devices: Seq<SimDeviceV>,
    pub calls: Seq<DriverCall>,
}

/// The views of a device table.
pub open spec fn views_of_devices(s: Seq<SimDevice>) -> Seq<SimDeviceV> {
    s.map_values(|d: SimDevice| d@)
}

impl View for SimDriver {
    type V = SimDriverV;

    open spec fn view(&self) -> SimDriverV {
        SimDriverV { devices: views_of_devices(self.devices@), calls: self.calls@ }
    }
}

/// Well-formedness of one simulated device: the property record is
/// well-formed; scripted statuses are the success code or a real error
/// code; the geometry is non-negative with a positive binning factor and
/// a recognized format; the slot arrays run in parallel and the slot
/// table is small enough to be counted in an `i32`; every slot record
/// carries its statically known type tag.
pub open spec fn dev_inv(d: SimDeviceV) -> bool {
    &&& raw_props_wf(d.raw)
    &&& (d.probe_status == 0 || is_error_status(d.probe_status))
    &&& (d.init_status == 0 || is_error_status(d.init_status))
    &&& d.width >= 0
    &&& d.height >= 0
    &&& d.bin >= 1
    &&& ImageFormat::spec_from_code(d.format_code) is Some
    &&& d.attrs.len() <= 0x7fff_ffff
    &&& d.values.len() == d.attrs.len()
    &&& d.autos.len() == d.attrs.len()
    &&& forall|i: int| 0 <= i < d.attrs.len() ==> attr_tag_consistent(#[trigger] d.attrs[i])
    &&& forall|i: int|
        0 <= i < d.frames.len() ==> (#[trigger] d.frames[i] matches FrameOutcome::Fail(s)
            ==> is_error_status(s))
}

/// Well-formedness of the driver: a countable device table of
/// well-formed devices.
pub open spec fn sim_inv(v: SimDriverV) -> bool {
    &&& v.devices.len() <= 0x7fff_ffff
    &&& forall|i: int| 0 <= i < v.devices.len() ==> dev_inv(#[trigger] v.devices[i])
}

/// The driver after recording one call.
pub open spec fn sim_log(v: SimDriverV, c: DriverCall) -> SimDriverV {
    SimDriverV { calls: v.calls.push(c), ..v }
}

/// The driver with one device replaced.
pub open spec fn sim_with_dev(v: SimDriverV, i: int, d: SimDeviceV) -> SimDriverV {
    SimDriverV { devices: v.devices.update(i, d), ..v }
}

/// The index of the first device with a given identifier, or -1.
pub open spec fn dev_index(devs: Seq<SimDeviceV>, id: i32) -> int
    decreases devs.len(),
{
    if devs.len() == 0 {
        -1
    } else if devs[0].raw.camera_id == id {
        0
    } else {
        let r = dev_index(devs.skip(1), id);
        if r < 0 {
            -1
        } else {
            r + 1
        }
    }
}

/// A first match at a known index pins the device lookup down.
pub proof fn lemma_dev_index_first(devs: Seq<SimDeviceV>, id: i32, i: int)
    requires
        0 <= i < devs.len(),
        devs[i].raw.camera_id == id,
        forall|j: int| 0 <= j < i ==> devs[j].raw.camera_id != id,
    ensures
        dev_index(devs, id) == i,
    decreases i,
{
    if i > 0 {
        lemma_dev_index_first(devs.skip(1), id, i - 1);
    }
}

/// No match anywhere means the lookup reports none.
pub proof fn lemma_dev_index_none(devs: Seq<SimDeviceV>, id: i32)
    requires
        forall|j: int| 0 <= j < devs.len() ==> devs[j].raw.camera_id != id,
    ensures
        dev_index(devs, id) == -1,
    decreases devs.len(),
{
    if devs.len() > 0 {
        lemma_dev_index_none(devs.skip(1), id);
    }
}

/// A found index is in range and names the first device with the
/// identifier.
pub proof fn lemma_dev_index_found(devs: Seq<SimDeviceV>, id: i32)
    requires
        dev_index(devs, id) >= 0,
    ensures
        dev_index(devs, id) < devs.len(),
        devs[dev_index(devs, id)].raw.camera_id == id,
        forall|j: int| 0 <= j < dev_index(devs, id) ==> devs[j].raw.camera_id != id,
    decreases devs.len(),
{
    if devs.len() > 0 && devs[0].raw.camera_id != id {
        lemma_dev_index_found(devs.skip(1), id);
        assert forall|j: int| 0 <= j < dev_index(devs, id) implies devs[j].raw.camera_id != id by {
            if j > 0 {
                assert(devs.skip(1)[j - 1] == devs[j]);
            }
        }
    }
}

/// The index of the first slot record with a given slot code, or -1.
pub open spec fn attr_index(attrs: Seq<RawConfigAttributes>, code: i32) -> int
    decreases attrs.len(),
{
    if attrs.len() == 0 {
        -1
    } else if attrs[0].config_id == code {
        0
    } else {
        let r = attr_index(attrs.skip(1), code);
        if r < 0 {
            -1
        } else {
            r + 1
        }
    }
}

/// A first match at a known index pins the slot lookup down.
pub proof fn lemma_attr_index_first(attrs: Seq<RawConfigAttributes>, code: i32, i: int)
    requires
        0 <= i < attrs.len(),
        attrs[i].config_id == code,
        forall|j: int| 0 <= j < i ==> attrs[j].config_id != code,
    ensures
        attr_index(attrs, code) == i,
    decreases i,
{
    if i > 0 {
        lemma_attr_index_first(attrs.skip(1), code, i - 1);
    }
}

/// No match anywhere means the slot lookup reports none.
pub proof fn lemma_attr_index_none(attrs: Seq<RawConfigAttributes>, code: i32)
    requires
        forall|j: int| 0 <= j < attrs.len() ==> attrs[j].config_id != code,
    ensures
        attr_index(attrs, code) == -1,
    decreases attrs.len(),
{
    if attrs.len() > 0 {
        lemma_attr_index_none(attrs.skip(1), code);
    }
}

/// Removing a device and inserting its replacement at the same index
/// updates the table's view at that index.
pub proof fn lemma_views_remove_insert(s: Seq<SimDevice>, i: int, x: SimDevice)
    requires
        0 <= i < s.len(),
    ensures
        views_of_devices(s.remove(i).insert(i, x)) == views_of_devices(s).update(i, x@),
{
    assert(views_of_devices(s.remove(i).insert(i, x)) =~= views_of_devices(s).update(i, x@));
}

/// The smallest buffer a frame retrieval accepts: width times height
/// times bytes-per-pixel of the current format.
pub open spec fn required_size(d: SimDeviceV) -> nat {
    frame_bytes(d.width, d.height, d.format_code)
}

/// Sizing a buffer by the fixed bytes-per-pixel formula never falls
/// short of the driver's minimum for the same geometry and format: the
/// two are the same product.
pub proof fn lemma_frame_buffer_meets_minimum(d: SimDeviceV)
    ensures
        frame_bytes(d.width, d.height, d.format_code) >= required_size(d),
{
}

/// A buffer with its first `n` bytes replaced by a fill value.
pub open spec fn fill_prefix(buf: Seq<u8>, n: int, fill: u8) -> Seq<u8> {
    Seq::new(buf.len(), |k: int| if k < n { fill } else { buf[k] })
}

impl SimDevice {
    /// A fresh device over a property record: closed, full-frame
    /// geometry, no binning, 8-bit raw format, no slots, no frames.
    pub fn new(raw: RawCameraProperties) -> (r: SimDevice)
        ensures
            r@ == (SimDeviceV {
                raw,
                probe_status: 0,
                init_status: 0,
                opened: false,
                exposing: false,
                continuous: false,
                width: raw.max_width,
                height: raw.max_height,
                start_x: 0,
                start_y: 0,
                bin: 1,
                format_code: FORMAT_RAW8,
                attrs: Seq::empty(),
                values: Seq::empty(),
                autos: Seq::empty(),
                frames: Seq::empty(),
                cursor: 0,
            }),
    {
        let r = SimDevice {
            raw,
            probe_status: 0,
            init_status: 0,
            opened: false,
            exposing: false,
            continuous: false,
            width: raw.max_width,
            height: raw.max_height,
            start_x: 0,
            start_y: 0,
            bin: 1,
            format_code: FORMAT_RAW8,
            attrs: Vec::new(),
            values: Vec::new(),
            autos: Vec::new(),
            frames: Vec::new(),
            cursor: 0,
        };
        proof {
            assert(r@.attrs =~= Seq::<RawConfigAttributes>::empty());
            assert(r@.values =~= Seq::<RawValue>::empty());
            assert(r@.autos =~= Seq::<bool>::empty());
            assert(r@.frames =~= Seq::<FrameOutcome>::empty());
        }
        r
    }

    /// Adds one configuration slot with its current value and flag.
    pub fn push_slot(&mut self, attr: RawConfigAttributes, value: RawValue, auto: bool)
        ensures
            final(self)@ == (SimDeviceV {
                attrs: old(self)@.attrs.push(attr),
                values: old(self)@.values.push(value),
                autos: old(self)@.autos.push(auto),
                ..old(self)@
            }),
    {
        self.attrs.push(attr);
        self.values.push(value);
        self.autos.push(auto);
    }
}

impl SimDriver {
    /// A driver over a device table, with an empty call log.
    pub fn new(devices: Vec<SimDevice>) -> (r: SimDriver)
        ensures
            r@.devices == views_of_devices(devices@),
            r@.calls == Seq::<DriverCall>::empty(),
    {
        let r = SimDriver { devices, calls: Vec::new() };
        proof {
            assert(r@.calls =~= Seq::<DriverCall>::empty());
        }
        r
    }

    /// Finds the device a driver-assigned identifier addresses.
    fn find_device(&self, id: i32) -> (r: Option<usize>)
        ensures
            match r {
                Some(i) => dev_index(self@.devices, id) == i && i < self.devices@.len(),
                None => dev_index(self@.devices, id) == -1,
            },
    {
        let mut i: usize = 0;
        while i < self.devices.len()
            invariant
                i <= self.devices@.len(),
                forall|j: int| 0 <= j < i ==> views_of_devices(self.devices@)[j].raw.camera_id != id,
            decreases self.devices@.len() - i,
        {
            if self.devices[i].raw.camera_id == id {
                proof {
                    lemma_dev_index_first(self@.devices, id, i as int);
                }
                return Some(i);
            }
            i = i + 1;
        }
        proof {
            lemma_dev_index_none(self@.devices, id);
        }
        None
    }
}

/// Finds the slot record a slot code addresses.
fn find_attr(attrs: &Vec<RawConfigAttributes>, code: i32) -> (r: Option<usize>)
    ensures
        match r {
            Some(i) => attr_index(attrs@, code) == i && i < attrs@.len(),
            None => attr_index(attrs@, code) == -1,
        },
{
    let mut i: usize = 0;
    while i < attrs.len()
        invariant
            i <= attrs@.len(),
            forall|j: int| 0 <= j < i ==> attrs@[j].config_id != code,
        decreases attrs@.len() - i,
    {
        if attrs[i].config_id == code {
            proof {
                lemma_attr_index_first(attrs@, code, i as int);
            }
            return Some(i);
        }
        i = i + 1;
    }
    proof {
        lemma_attr_index_none(attrs@, code);
    }
    None
}

impl Driver for SimDriver {
    open spec fn inv(v: SimDriverV) -> bool {
        sim_inv(v)
    }

    open spec fn m_camera_count(v: SimDriverV) -> (SimDriverV, i32) {
        (sim_log(v, DriverCall::CameraCount), v.devices.len() as i32)
    }

    open spec fn m_camera_properties(v: SimDriverV, index: i32) -> (SimDriverV, i32, Option<
        RawCameraProperties,
    >) {
        let w = sim_log(v, DriverCall::CameraProperties(index));
        if index < 0 || index >= v.devices.len() {
            (w, STATUS_INVALID_INDEX, None)
        } else if v.devices[index as int].probe_status != 0 {
            (w, v.devices[index as int].probe_status, None)
        } else {
            (w, STATUS_OK, Some(v.devices[index as int].raw))
        }
    }

    open spec fn m_open_camera(v: SimDriverV, id: i32) -> (SimDriverV, i32) {
        let w = sim_log(v, DriverCall::OpenCamera(id));
        let i = dev_index(v.devices, id);
        if i < 0 {
            (w, STATUS_INVALID_ID)
        } else {
            (sim_with_dev(w, i, SimDeviceV { opened: true, ..v.devices[i] }), STATUS_OK)
        }
    }

    open spec fn m_init_camera(v: SimDriverV, id: i32) -> (SimDriverV, i32) {
        let w = sim_log(v, DriverCall::InitCamera(id));
        let i = dev_index(v.devices, id);
        if i < 0 {
            (w, STATUS_INVALID_ID)
        } else if !v.devices[i].opened {
            (w, STATUS_NOT_OPENED)
        } else if v.devices[i].init_status != 0 {
            (w, v.devices[i].init_status)
        } else {
            (w, STATUS_OK)
        }
    }

    open spec fn m_close_camera(v: SimDriverV, id: i32) -> (SimDriverV, i32) {
        let w = sim_log(v, DriverCall::CloseCamera(id));
        let i = dev_index(v.devices, id);
        if i < 0 {
            (w, STATUS_INVALID_ID)
        } else {
            (
                sim_with_dev(
                    w,
                    i,
                    SimDeviceV { opened: false, exposing: false, ..v.devices[i] },
                ),
                STATUS_OK,
            )
        }
    }

    open spec fn m_camera_state(v: SimDriverV, id: i32) -> (SimDriverV, i32, CameraState) {
        let w = sim_log(v, DriverCall::CameraState(id));
        let i = dev_index(v.devices, id);
        if i < 0 {
            (w, STATUS_INVALID_ID, CameraState::Closed)
        } else {
            let d = v.devices[i];
            let st = if !d.opened {
                CameraState::Closed
            } else if d.exposing {
                CameraState::Exposing
            } else {
                CameraState::Opened
            };
            (w, STATUS_OK, st)
        }
    }

    open spec fn m_start_exposure(v: SimDriverV, id: i32, continuous: bool) -> (SimDriverV, i32) {
        let w = sim_log(v, DriverCall::StartExposure(id, continuous));
        let i = dev_index(v.devices, id);
        if i < 0 {
            (w, STATUS_INVALID_ID)
        } else if !v.devices[i].opened {
            (w, STATUS_NOT_OPENED)
        } else if v.devices[i].exposing {
            (w, STATUS_EXPOSING)
        } else {
            (
                sim_with_dev(w, i, SimDeviceV { exposing: true, continuous, ..v.devices[i] }),
                STATUS_OK,
            )
        }
    }

    open spec fn m_stop_exposure(v: SimDriverV, id: i32) -> (SimDriverV, i32) {
        let w = sim_log(v, DriverCall::StopExposure(id));
        let i = dev_index(v.devices, id);
        if i < 0 {
            (w, STATUS_INVALID_ID)
        } else if !v.devices[i].opened {
            (w, STATUS_NOT_OPENED)
        } else {
            (sim_with_dev(w, i, SimDeviceV { exposing: false, ..v.devices[i] }), STATUS_OK)
        }
    }

    open spec fn m_image_ready(v: SimDriverV, id: i32) -> (SimDriverV, i32, bool) {
        let w = sim_log(v, DriverCall::ImageReady(id));
        let i = dev_index(v.devices, id);
        if i < 0 {
            (w, STATUS_INVALID_ID, false)
        } else if !v.devices[i].opened {
            (w, STATUS_NOT_OPENED, false)
        } else {
            let d = v.devices[i];
            let ready = d.exposing && d.cursor < d.frames.len() && d.frames[d.cursor as int]
                matches FrameOutcome::Frame(_);
            (w, STATUS_OK, ready)
        }
    }

    open spec fn m_get_image_data(v: SimDriverV, id: i32, buf: Seq<u8>, timeout_ms: i32) -> (
        SimDriverV,
        i32,
        Seq<u8>,
    ) {
        let w = sim_log(v, DriverCall::GetImageData(id, timeout_ms));
        let i = dev_index(v.devices, id);
        if i < 0 {
            (w, STATUS_INVALID_ID, buf)
        } else if !v.devices[i].opened {
            (w, STATUS_NOT_OPENED, buf)
        } else if !v.devices[i].exposing {
            (w, STATUS_EXPOSURE_FAILED, buf)
        } else if v.devices[i].cursor >= v.devices[i].frames.len() {
            (w, STATUS_TIMEOUT, buf)
        } else {
            let d = v.devices[i];
            match d.frames[d.cursor as int] {
                FrameOutcome::Fail(s) => (
                    sim_with_dev(w, i, SimDeviceV { cursor: (d.cursor + 1) as usize, ..d }),
                    s,
                    buf,
                ),
                FrameOutcome::Frame(fill) => {
                    if buf.len() < required_size(d) {
                        (w, STATUS_SIZE_LESS, buf)
                    } else {
                        (
                            sim_with_dev(
                                w,
                                i,
                                SimDeviceV {
                                    cursor: (d.cursor + 1) as usize,
                                    exposing: d.continuous,
                                    ..d
                                },
                            ),
                            STATUS_OK,
                            fill_prefix(buf, required_size(d) as int, fill),
                        )
                    }
                },
            }
        }
    }

    open spec fn m_set_image_size(v: SimDriverV, id: i32, width: i32, height: i32) -> (
        SimDriverV,
        i32,
    ) {
        let w = sim_log(v, DriverCall::SetImageSize(id, width, height));
        let i = dev_index(v.devices, id);
        if i < 0 {
            (w, STATUS_INVALID_ID)
        } else if !v.devices[i].opened {
            (w, STATUS_NOT_OPENED)
        } else if v.devices[i].exposing {
            (w, STATUS_EXPOSING)
        } else if width < 1 || height < 1 || width > v.devices[i].raw.max_width || height
            > v.devices[i].raw.max_height {
            (w, STATUS_OUT_OF_LIMIT)
        } else {
            (sim_with_dev(w, i, SimDeviceV { width, height, ..v.devices[i] }), STATUS_OK)
        }
    }

    open spec fn m_get_image_size(v: SimDriverV, id: i32) -> (SimDriverV, i32, i32, i32) {
        let w = sim_log(v, DriverCall::GetImageSize(id));
        let i = dev_index(v.devices, id);
        if i < 0 {
            (w, STATUS_INVALID_ID, 0, 0)
        } else if !v.devices[i].opened {
            (w, STATUS_NOT_OPENED, 0, 0)
        } else {
            (w, STATUS_OK, v.devices[i].width, v.devices[i].height)
        }
    }

    open spec fn m_set_image_start_pos(v: SimDriverV, id: i32, start_x: i32, start_y: i32) -> (
        SimDriverV,
        i32,
    ) {
        let w = sim_log(v, DriverCall::SetImageStartPos(id, start_x, start_y));
        let i = dev_index(v.devices, id);
        if i < 0 {
            (w, STATUS_INVALID_ID)
        } else if !v.devices[i].opened {
            (w, STATUS_NOT_OPENED)
        } else if v.devices[i].exposing {
            (w, STATUS_EXPOSING)
        } else if start_x < 0 || start_y < 0 {
            (w, STATUS_OUT_OF_LIMIT)
        } else {
            (sim_with_dev(w, i, SimDeviceV { start_x, start_y, ..v.devices[i] }), STATUS_OK)
        }
    }

    open spec fn m_get_image_start_pos(v: SimDriverV, id: i32) -> (SimDriverV, i32, i32, i32) {
        let w = sim_log(v, DriverCall::GetImageStartPos(id));
        let i = dev_index(v.devices, id);
        if i < 0 {
            (w, STATUS_INVALID_ID, 0, 0)
        } else if !v.devices[i].opened {
            (w, STATUS_NOT_OPENED, 0, 0)
        } else {
            (w, STATUS_OK, v.devices[i].start_x, v.devices[i].start_y)
        }
    }

    open spec fn m_set_image_bin(v: SimDriverV, id: i32, bin: i32) -> (SimDriverV, i32) {
        let w = sim_log(v, DriverCall::SetImageBin(id, bin));
        let i = dev_index(v.devices, id);
        if i < 0 {
            (w, STATUS_INVALID_ID)
        } else if !v.devices[i].opened {
            (w, STATUS_NOT_OPENED)
        } else if v.devices[i].exposing {
            (w, STATUS_EXPOSING)
        } else if bin < 1 || !decode_bins(v.devices[i].raw.bins@).contains(bin as u32) {
            (w, STATUS_OUT_OF_LIMIT)
        } else {
            let d = v.devices[i];
            (
                sim_with_dev(
                    w,
                    i,
                    SimDeviceV {
                        bin,
                        width: (d.raw.max_width / bin) as i32,
                        height: (d.raw.max_height / bin) as i32,
                        start_x: 0,
                        start_y: 0,
                        ..d
                    },
                ),
                STATUS_OK,
            )
        }
    }

    open spec fn m_get_image_bin(v: SimDriverV, id: i32) -> (SimDriverV, i32, i32) {
        let w = sim_log(v, DriverCall::GetImageBin(id));
        let i = dev_index(v.devices, id);
        if i < 0 {
            (w, STATUS_INVALID_ID, 1)
        } else if !v.devices[i].opened {
            (w, STATUS_NOT_OPENED, 1)
        } else {
            (w, STATUS_OK, v.devices[i].bin)
        }
    }

    open spec fn m_set_image_format(v: SimDriverV, id: i32, format_code: i32) -> (SimDriverV, i32) {
        let w = sim_log(v, DriverCall::SetImageFormat(id, format_code));
        let i = dev_index(v.devices, id);
        if i < 0 {
            (w, STATUS_INVALID_ID)
        } else if !v.devices[i].opened {
            (w, STATUS_NOT_OPENED)
        } else if ImageFormat::spec_from_code(format_code) is None {
            (w, STATUS_INVALID_ARGU)
        } else {
            (sim_with_dev(w, i, SimDeviceV { format_code, ..v.devices[i] }), STATUS_OK)
        }
    }

    open spec fn m_get_image_format(v: SimDriverV, id: i32) -> (SimDriverV, i32, i32) {
        let w = sim_log(v, DriverCall::GetImageFormat(id));
        let i = dev_index(v.devices, id);
        if i < 0 {
            (w, STATUS_INVALID_ID, FORMAT_RAW8)
        } else if !v.devices[i].opened {
            (w, STATUS_NOT_OPENED, FORMAT_RAW8)
        } else {
            (w, STATUS_OK, v.devices[i].format_code)
        }
    }

    open spec fn m_get_configs_count(v: SimDriverV, id: i32) -> (SimDriverV, i32, i32) {
        let w = sim_log(v, DriverCall::GetConfigsCount(id));
        let i = dev_index(v.devices, id);
        if i < 0 {
            (w, STATUS_INVALID_ID, 0)
        } else if !v.devices[i].opened {
            (w, STATUS_NOT_OPENED, 0)
        } else {
            (w, STATUS_OK, v.devices[i].attrs.len() as i32)
        }
    }

    open spec fn m_get_config_attributes(v: SimDriverV, id: i32, index: i32) -> (
        SimDriverV,
        i32,
        Option<RawConfigAttributes>,
    ) {
        let w = sim_log(v, DriverCall::GetConfigAttributes(id, index));
        let i = dev_index(v.devices, id);
        if i < 0 {
            (w, STATUS_INVALID_ID, None)
        } else if !v.devices[i].opened {
            (w, STATUS_NOT_OPENED, None)
        } else if index < 0 || index >= v.devices[i].attrs.len() {
            (w, STATUS_INVALID_INDEX, None)
        } else {
            (w, STATUS_OK, Some(v.devices[i].attrs[index as int]))
        }
    }

    open spec fn m_set_config(
        v: SimDriverV,
        id: i32,
        config_code: i32,
        value: RawValue,
        auto: bool,
    ) -> (SimDriverV, i32) {
        let w = sim_log(v, DriverCall::SetConfig(id, config_code, value, auto));
        let i = dev_index(v.devices, id);
        if i < 0 {
            (w, STATUS_INVALID_ID)
        } else if !v.devices[i].opened {
            (w, STATUS_NOT_OPENED)
        } else {
            let d = v.devices[i];
            let j = attr_index(d.attrs, config_code);
            if j < 0 {
                (w, STATUS_INVALID_CONFIG)
            } else if d.attrs[j].is_writable != 1 {
                (w, STATUS_CONF_CANNOT_WRITE)
            } else {
                (
                    sim_with_dev(
                        w,
                        i,
                        SimDeviceV {
                            values: d.values.update(j, value),
                            autos: d.autos.update(j, auto),
                            ..d
                        },
                    ),
                    STATUS_OK,
                )
            }
        }
    }

    open spec fn m_get_config(v: SimDriverV, id: i32, config_code: i32) -> (SimDriverV, i32, Option<
        (RawValue, bool),
    >) {
        let w = sim_log(v, DriverCall::GetConfig(id, config_code));
        let i = dev_index(v.devices, id);
        if i < 0 {
            (w, STATUS_INVALID_ID, None)
        } else if !v.devices[i].opened {
            (w, STATUS_NOT_OPENED, None)
        } else {
            let d = v.devices[i];
            let j = attr_index(d.attrs, config_code);
            if j < 0 {
                (w, STATUS_INVALID_CONFIG, None)
            } else if d.attrs[j].is_readable != 1 {
                (w, STATUS_CONF_CANNOT_READ, None)
            } else if j >= d.values.len() || j >= d.autos.len() {
                (w, STATUS_INVALID_CONFIG, None)
            } else {
                (w, STATUS_OK, Some((d.values[j], d.autos[j])))
            }
        }
    }

    fn camera_count(&mut self) -> (r: i32) {
        self.calls.push(DriverCall::CameraCount);
        self.devices.len() as i32
    }

    fn camera_properties(&mut self, index: i32) -> (r: (i32, Option<RawCameraProperties>)) {
        self.calls.push(DriverCall::CameraProperties(index));
        if index < 0 || index as usize >= self.devices.len() {
            (STATUS_INVALID_INDEX, None)
        } else {
            let i = index as usize;
            if self.devices[i].probe_status != 0 {
                (self.devices[i].probe_status, None)
            } else {
                (STATUS_OK, Some(self.devices[i].raw))
            }
        }
    }

    fn open_camera(&mut self, id: i32) -> (r: i32) {
        self.calls.push(DriverCall::OpenCamera(id));
        match self.find_device(id) {
            None => STATUS_INVALID_ID,
            Some(i) => {
                let ghost devs0 = self.devices@;
                let mut dev = self.devices.remove(i);
                dev.opened = true;
                let ghost gdev = dev;
                self.devices.insert(i, dev);
                proof {
                    lemma_views_remove_insert(devs0, i as int, gdev);
                    assert(views_of_devices(devs0)[i as int] == devs0[i as int]@);
                    assert(dev_inv(gdev@));
                }
                STATUS_OK
            },
        }
    }

    fn init_camera(&mut self, id: i32) -> (r: i32) {
        self.calls.push(DriverCall::InitCamera(id));
        match self.find_device(id) {
            None => STATUS_INVALID_ID,
            Some(i) => {
                if !self.devices[i].opened {
                    STATUS_NOT_OPENED
                } else if self.devices[i].init_status != 0 {
                    self.devices[i].init_status
                } else {
                    STATUS_OK
                }
            },
        }
    }

    fn close_camera(&mut self, id: i32) -> (r: i32) {
        self.calls.push(DriverCall::CloseCamera(id));
        match self.find_device(id) {
            None => STATUS_INVALID_ID,
            Some(i) => {
                let ghost devs0 = self.devices@;
                let mut dev = self.devices.remove(i);
                dev.opened = false;
                dev.exposing = false;
                let ghost gdev = dev;
                self.devices.insert(i, dev);
                proof {
                    lemma_views_remove_insert(devs0, i as int, gdev);
                    assert(views_of_devices(devs0)[i as int] == devs0[i as int]@);
                    assert(dev_inv(gdev@));
                }
                STATUS_OK
            },
        }
    }

    fn camera_state(&mut self, id: i32) -> (r: (i32, CameraState)) {
        self.calls.push(DriverCall::CameraState(id));
        match self.find_device(id) {
            None => (STATUS_INVALID_ID, CameraState::Closed),
            Some(i) => {
                let st = if !self.devices[i].opened {
                    CameraState::Closed
                } else if self.devices[i].exposing {
                    CameraState::Exposing
                } else {
                    CameraState::Opened
                };
                (STATUS_OK, st)
            },
        }
    }

    fn start_exposure(&mut self, id: i32, continuous: bool) -> (r: i32) {
        self.calls.push(DriverCall::StartExposure(id, continuous));
        match self.find_device(id) {
            None => STATUS_INVALID_ID,
            Some(i) => {
                if !self.devices[i].opened {
                    STATUS_NOT_OPENED
                } else if self.devices[i].exposing {
                    STATUS_EXPOSING
                } else {
                    let ghost devs0 = self.devices@;
                    let mut dev = self.devices.remove(i);
                    dev.exposing = true;
                    dev.continuous = continuous;
                    let ghost gdev = dev;
                    self.devices.insert(i, dev);
                    proof {
                        lemma_views_remove_insert(devs0, i as int, gdev);
                        assert(views_of_devices(devs0)[i as int] == devs0[i as int]@);
                        assert(dev_inv(gdev@));
                    }
                    STATUS_OK
                }
            },
        }
    }

    fn stop_exposure(&mut self, id: i32) -> (r: i32) {
        self.calls.push(DriverCall::StopExposure(id));
        match self.find_device(id) {
            None => STATUS_INVALID_ID,
            Some(i) => {
                if !self.devices[i].opened {
                    STATUS_NOT_OPENED
                } else {
                    let ghost devs0 = self.devices@;
                    let mut dev = self.devices.remove(i);
                    dev.exposing = false;
                    let ghost gdev = dev;
                    self.devices.insert(i, dev);
                    proof {
                        lemma_views_remove_insert(devs0, i as int, gdev);
                        assert(views_of_devices(devs0)[i as int] == devs0[i as int]@);
                        assert(dev_inv(gdev@));
                    }
                    STATUS_OK
                }
            },
        }
    }

    fn image_ready(&mut self, id: i32) -> (r: (i32, bool)) {
        self.calls.push(DriverCall::ImageReady(id));
        match self.find_device(id) {
            None => (STATUS_INVALID_ID, false),
            Some(i) => {
                if !self.devices[i].opened {
                    (STATUS_NOT_OPENED, false)
                } else {
                    let cursor = self.devices[i].cursor;
                    let ready = self.devices[i].exposing && cursor < self.devices[i].frames.len()
                        && matches!(self.devices[i].frames[cursor], FrameOutcome::Frame(_));
                    (STATUS_OK, ready)
                }
            },
        }
    }

    fn get_image_data(&mut self, id: i32, buffer: &mut Vec<u8>, timeout_ms: i32) -> (r: i32) {
        self.calls.push(DriverCall::GetImageData(id, timeout_ms));
        let found = self.find_device(id);
        let i = match found {
            None => {
                return STATUS_INVALID_ID;
            },
            Some(i) => i,
        };
        if !self.devices[i].opened {
            return STATUS_NOT_OPENED;
        }
        if !self.devices[i].exposing {
            return STATUS_EXPOSURE_FAILED;
        }
        let cursor = self.devices[i].cursor;
        if cursor >= self.devices[i].frames.len() {
            return STATUS_TIMEOUT;
        }
        let outcome = self.devices[i].frames[cursor];
        match outcome {
            FrameOutcome::Fail(s) => {
                let ghost devs0 = self.devices@;
                let mut dev = self.devices.remove(i);
                dev.cursor = cursor + 1;
                let ghost gdev = dev;
                self.devices.insert(i, dev);
                proof {
                    lemma_views_remove_insert(devs0, i as int, gdev);
                    assert(views_of_devices(devs0)[i as int] == devs0[i as int]@);
                    assert(dev_inv(gdev@));
                }
                s
            },
            FrameOutcome::Frame(fill) => {
                let w = self.devices[i].width;
                let h = self.devices[i].height;
                let code = self.devices[i].format_code;
                let cont = self.devices[i].continuous;
                let bpp = match ImageFormat::from_code(code) {
                    Some(f) => f.bytes_per_pixel(),
                    None => 1,
                };
                proof {
                    assert(bpp <= 3);
                    assert((w as u64) * (h as u64) <= 0x3fff_ffff_0000_0001u64) by (nonlinear_arith)
                        requires
                            w as u64 <= 0x7fff_ffffu64,
                            h as u64 <= 0x7fff_ffffu64,
                    ;
                }
                let wh = (w as u64) * (h as u64);
                proof {
                    assert(wh * (bpp as u64) <= 0xbfff_fffd_0000_0003u64) by (nonlinear_arith)
                        requires
                            wh <= 0x3fff_ffff_0000_0001u64,
                            bpp as u64 <= 3u64,
                    ;
                }
                let required = wh * (bpp as u64);
                proof {
                    assert((w as u64) * (h as u64) * (bpp as u64) == required_size(
                        self@.devices[i as int],
                    )) by (nonlinear_arith)
                        requires
                            w >= 0,
                            h >= 0,
                            w == self@.devices[i as int].width,
                            h == self@.devices[i as int].height,
                            bpp == bpp_of_code(self@.devices[i as int].format_code),
                    ;
                    assert(required == required_size(self@.devices[i as int]));
                }
                if (buffer.len() as u64) < required {
                    return STATUS_SIZE_LESS;
                }
                let required_us = required as usize;
                let ghost buf0 = buffer@;
                let mut j: usize = 0;
                proof {
                    assert(buffer@ =~= fill_prefix(buf0, 0, fill));
                }
                while j < required_us
                    invariant
                        j <= required_us,
                        required_us <= buffer@.len(),
                        buffer@.len() == buf0.len(),
                        buffer@ == fill_prefix(buf0, j as int, fill),
                    decreases required_us - j,
                {
                    buffer[j] = fill;
                    j = j + 1;
                    proof {
                        assert(buffer@ =~= fill_prefix(buf0, j as int, fill));
                    }
                }
                let ghost devs0 = self.devices@;
                let mut dev = self.devices.remove(i);
                dev.cursor = cursor + 1;
                dev.exposing = cont;
                let ghost gdev = dev;
                self.devices.insert(i, dev);
                proof {
                    lemma_views_remove_insert(devs0, i as int, gdev);
                    assert(views_of_devices(devs0)[i as int] == devs0[i as int]@);
                    assert(dev_inv(gdev@));
                }
                STATUS_OK
            },
        }
    }

    fn set_image_size(&mut self, id: i32, width: i32, height: i32) -> (r: i32) {
        self.calls.push(DriverCall::SetImageSize(id, width, height));
        match self.find_device(id) {
            None => STATUS_INVALID_ID,
            Some(i) => {
                if !self.devices[i].opened {
                    STATUS_NOT_OPENED
                } else if self.devices[i].exposing {
                    STATUS_EXPOSING
                } else if width < 1 || height < 1 || width > self.devices[i].raw.max_width || height
                    > self.devices[i].raw.max_height {
                    STATUS_OUT_OF_LIMIT
                } else {
                    let ghost devs0 = self.devices@;
                    let mut dev = self.devices.remove(i);
                    dev.width = width;
                    dev.height = height;
                    let ghost gdev = dev;
                    self.devices.insert(i, dev);
                    proof {
                        lemma_views_remove_insert(devs0, i as int, gdev);
                        assert(views_of_devices(devs0)[i as int] == devs0[i as int]@);
                        assert(dev_inv(gdev@));
                    }
                    STATUS_OK
                }
            },
        }
    }

    fn get_image_size(&mut self, id: i32) -> (r: (i32, i32, i32)) {
        self.calls.push(DriverCall::GetImageSize(id));
        match self.find_device(id) {
            None => (STATUS_INVALID_ID, 0, 0),
            Some(i) => {
                if !self.devices[i].opened {
                    (STATUS_NOT_OPENED, 0, 0)
                } else {
                    (STATUS_OK, self.devices[i].width, self.devices[i].height)
                }
            },
        }
    }

    fn set_image_start_pos(&mut self, id: i32, start_x: i32, start_y: i32) -> (r: i32) {
        self.calls.push(DriverCall::SetImageStartPos(id, start_x, start_y));
        match self.find_device(id) {
            None => STATUS_INVALID_ID,
            Some(i) => {
                if !self.devices[i].opened {
                    STATUS_NOT_OPENED
                } else if self.devices[i].exposing {
                    STATUS_EXPOSING
                } else if start_x < 0 || start_y < 0 {
                    STATUS_OUT_OF_LIMIT
                } else {
                    let ghost devs0 = self.devices@;
                    let mut dev = self.devices.remove(i);
                    dev.start_x = start_x;
                    dev.start_y = start_y;
                    let ghost gdev = dev;
                    self.devices.insert(i, dev);
                    proof {
                        lemma_views_remove_insert(devs0, i as int, gdev);
                        assert(views_of_devices(devs0)[i as int] == devs0[i as int]@);
                        assert(dev_inv(gdev@));
                    }
                    STATUS_OK
                }
            },
        }
    }

    fn get_image_start_pos(&mut self, id: i32) -> (r: (i32, i32, i32)) {
        self.calls.push(DriverCall::GetImageStartPos(id));
        match self.find_device(id) {
            None => (STATUS_INVALID_ID, 0, 0),
            Some(i) => {
                if !self.devices[i].opened {
                    (STATUS_NOT_OPENED, 0, 0)
                } else {
                    (STATUS_OK, self.devices[i].start_x, self.devices[i].start_y)
                }
            },
        }
    }

    fn set_image_bin(&mut self, id: i32, bin: i32) -> (r: i32) {
        self.calls.push(DriverCall::SetImageBin(id, bin));
        match self.find_device(id) {
            None => STATUS_INVALID_ID,
            Some(i) => {
                if !self.devices[i].opened {
                    STATUS_NOT_OPENED
                } else if self.devices[i].exposing {
                    STATUS_EXPOSING
                } else {
                    let bins = crate::properties::decode_bins_buffer(&self.devices[i].raw.bins);
                    let supported = bin >= 1 && crate::properties::contains_bin(
                        &bins,
                        bin as u32,
                    );
                    if !supported {
                        STATUS_OUT_OF_LIMIT
                    } else {
                        let ghost devs0 = self.devices@;
                        let max_w = self.devices[i].raw.max_width;
                        let max_h = self.devices[i].raw.max_height;
                        let mut dev = self.devices.remove(i);
                        dev.bin = bin;
                        dev.width = max_w / bin;
                        dev.height = max_h / bin;
                        dev.start_x = 0;
                        dev.start_y = 0;
                        let ghost gdev = dev;
                        self.devices.insert(i, dev);
                        proof {
                            lemma_views_remove_insert(devs0, i as int, gdev);
                            assert(views_of_devices(devs0)[i as int] == devs0[i as int]@);
                            assert(dev_inv(gdev@));
                        }
                        STATUS_OK
                    }
                }
            },
        }
    }

    fn get_image_bin(&mut self, id: i32) -> (r: (i32, i32)) {
        self.calls.push(DriverCall::GetImageBin(id));
        match self.find_device(id) {
            None => (STATUS_INVALID_ID, 1),
            Some(i) => {
                if !self.devices[i].opened {
                    (STATUS_NOT_OPENED, 1)
                } else {
                    (STATUS_OK, self.devices[i].bin)
                }
            },
        }
    }

    fn set_image_format(&mut self, id: i32, format_code: i32) -> (r: i32) {
        self.calls.push(DriverCall::SetImageFormat(id, format_code));
        match self.find_device(id) {
            None => STATUS_INVALID_ID,
            Some(i) => {
                if !self.devices[i].opened {
                    STATUS_NOT_OPENED
                } else if ImageFormat::from_code(format_code).is_none() {
                    STATUS_INVALID_ARGU
                } else {
                    let ghost devs0 = self.devices@;
                    let mut dev = self.devices.remove(i);
                    dev.format_code = format_code;
                    let ghost gdev = dev;
                    self.devices.insert(i, dev);
                    proof {
                        lemma_views_remove_insert(devs0, i as int, gdev);
                        assert(views_of_devices(devs0)[i as int] == devs0[i as int]@);
                        assert(dev_inv(gdev@));
                    }
                    STATUS_OK
                }
            },
        }
    }

    fn get_image_format(&mut self, id: i32) -> (r: (i32, i32)) {
        self.calls.push(DriverCall::GetImageFormat(id));
        match self.find_device(id) {
            None => (STATUS_INVALID_ID, FORMAT_RAW8),
            Some(i) => {
                if !self.devices[i].opened {
                    (STATUS_NOT_OPENED, FORMAT_RAW8)
                } else {
                    (STATUS_OK, self.devices[i].format_code)
                }
            },
        }
    }

    fn get_configs_count(&mut self, id: i32) -> (r: (i32, i32)) {
        self.calls.push(DriverCall::GetConfigsCount(id));
        match self.find_device(id) {
            None => (STATUS_INVALID_ID, 0),
            Some(i) => {
                if !self.devices[i].opened {
                    (STATUS_NOT_OPENED, 0)
                } else {
                    (STATUS_OK, self.devices[i].attrs.len() as i32)
                }
            },
        }
    }

    fn get_config_attributes(&mut self, id: i32, index: i32) -> (r: (
        i32,
        Option<RawConfigAttributes>,
    )) {
        self.calls.push(DriverCall::GetConfigAttributes(id, index));
        match self.find_device(id) {
            None => (STATUS_INVALID_ID, None),
            Some(i) => {
                if !self.devices[i].opened {
                    (STATUS_NOT_OPENED, None)
                } else if index < 0 || index as usize >= self.devices[i].attrs.len() {
                    (STATUS_INVALID_INDEX, None)
                } else {
                    (STATUS_OK, Some(self.devices[i].attrs[index as usize]))
                }
            },
        }
    }

    fn set_config(&mut self, id: i32, config_code: i32, value: RawValue, auto: bool) -> (r: i32) {
        self.calls.push(DriverCall::SetConfig(id, config_code, value, auto));
        match self.find_device(id) {
            None => STATUS_INVALID_ID,
            Some(i) => {
                if !self.devices[i].opened {
                    STATUS_NOT_OPENED
                } else {
                    match find_attr(&self.devices[i].attrs, config_code) {
                        None => STATUS_INVALID_CONFIG,
                        Some(j) => {
                            if self.devices[i].attrs[j].is_writable != 1 {
                                STATUS_CONF_CANNOT_WRITE
                            } else {
                                let ghost devs0 = self.devices@;
                                let mut dev = self.devices.remove(i);
                                if j < dev.values.len() {
                                    dev.values[j] = value;
                                }
                                if j < dev.autos.len() {
                                    dev.autos[j] = auto;
                                }
                                let ghost gdev = dev;
                                self.devices.insert(i, dev);
                                proof {
                                    lemma_views_remove_insert(devs0, i as int, gdev);
                                    assert(views_of_devices(devs0)[i as int] == devs0[i as int]@);
                                    assert(dev_inv(gdev@));
                                }
                                STATUS_OK
                            }
                        },
                    }
                }
            },
        }
    }

    fn get_config(&mut self, id: i32, config_code: i32) -> (r: (i32, Option<(RawValue, bool)>)) {
        self.calls.push(DriverCall::GetConfig(id, config_code));
        match self.find_device(id) {
            None => (STATUS_INVALID_ID, None),
            Some(i) => {
                if !self.devices[i].opened {
                    (STATUS_NOT_OPENED, None)
                } else {
                    match find_attr(&self.devices[i].attrs, config_code) {
                        None => (STATUS_INVALID_CONFIG, None),
                        Some(j) => {
                            if self.devices[i].attrs[j].is_readable != 1 {
                                (STATUS_CONF_CANNOT_READ, None)
                            } else if j >= self.devices[i].values.len() || j
                                >= self.devices[i].autos.len() {
                                (STATUS_INVALID_CONFIG, None)
                            } else {
                                (
                                    STATUS_OK,
                                    Some((self.devices[i].values[j], self.devices[i].autos[j])),
                                )
                            }
                        },
                    }
                }
            },
        }
    }
}

} // verus!
