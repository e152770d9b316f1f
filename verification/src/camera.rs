//! The device handle: enumeration into immutable descriptors, the
//! open/initialize/close lifecycle, region-of-interest and format
//! control with local pre-validation, and typed configuration access.
//! Every operation's contract chains through the driver's ghost model,
//! so what each call does to the driver and what it returns is stated
//! exactly.

use vstd::prelude::*;

use crate::config::collect_bounds;
use crate::config::mandatory_present;
use crate::config::promote_bounds;
use crate::config::AllBoundsV;
use crate::config::AllConfigBounds;
use crate::config::ConfigKind;
use crate::config::RawConfigAttributes;
use crate::driver::CameraState;
use crate::driver::Driver;
use crate::error::status_error;
use crate::error::Error;
use crate::properties::props_wf;
use crate::properties::spec_props_of_raw;
use crate::properties::CameraProperties;
use crate::properties::ImageFormat;
use crate::properties::PropsV;
use crate::sim::dev_index;
use crate::sim::lemma_dev_index_first;
use crate::sim::lemma_dev_index_found;
use crate::sim::SimDriver;
use crate::sim::SimDriverV;
use crate::value::ConfigValue;

verus! {

/// Region Of Interest: start position plus image extent, in
/// current-binning-adjusted pixel units.
#[derive(Debug, Copy, Clone, PartialEq, Eq, Structural)]
pub struct ROI {
    pub start_x: i32,
    pub start_y: i32,
    pub width: i32,
    pub height: i32,
}

/// Description of a camera, obtained by enumeration. Immutable; consumed
/// when opening the device it describes.
pub struct CameraDescription {
    camera_id: i32,
    properties: CameraProperties,
}

/// Mathematical view of a descriptor.
pub struct DescV {
    pub camera_id: i32,
    pub properties: PropsV,
}

impl View for CameraDescription {
    type V = DescV;

    closed spec fn view(&self) -> DescV {
        DescV { camera_id: self.camera_id, properties: self.properties@ }
    }
}

/// The views of a descriptor list.
pub open spec fn views_of_descs(s: Seq<CameraDescription>) -> Seq<DescV> {
    s.map_values(|c: CameraDescription| c@)
}

/// An opened device handle: the device identifier, whether this handle
/// already closed it, and the property snapshot it was opened from.
#[derive(Debug)]
pub struct Camera {
    camera_id: i32,
    closed: bool,
    properties: CameraProperties,
}

/// Mathematical view of a handle.
pub struct CamV {
    pub camera_id: i32,
    pub closed: bool,
    pub properties: PropsV,
}

impl View for Camera {
    type V = CamV;

    closed spec fn view(&self) -> CamV {
        CamV { camera_id: self.camera_id, closed: self.closed, properties: self.properties@ }
    }
}

/// Validity of a handle: its property snapshot came from a decoded
/// driver record, so the geometry bounds and binning factors fit `i32`.
pub open spec fn cam_wf(c: CamV) -> bool {
    props_wf(c.properties)
}

/// The result a status code stands for: success, or its error kind.
pub open spec fn status_result(s: i32) -> Result<(), Error> {
    if s == 0 {
        Ok(())
    } else {
        Err(status_error(s))
    }
}

/// The driver-level timeout an optional millisecond timeout is passed
/// as: negative means block without bound.
pub open spec fn timeout_code(t: Option<i32>) -> i32 {
    match t {
        Some(x) => x,
        None => -1i32,
    }
}

/// What enumerating from one index onward yields: the driver state after
/// all the per-index queries, and the descriptors of the devices whose
/// query succeeded, in index order; a failed index is skipped, not
/// fatal.
pub open spec fn enum_loop<D: Driver>(v: D::V, i: int, count: int) -> (D::V, Seq<DescV>)
    decreases count - i,
{
    if i >= count {
        (v, Seq::empty())
    } else {
        let (v1, s, p) = D::m_camera_properties(v, i as i32);
        let (v2, rest) = enum_loop::<D>(v1, i + 1, count);
        if s == 0 && p is Some {
            (
                v2,
                seq![
                    DescV {
                        camera_id: p.unwrap().camera_id,
                        properties: spec_props_of_raw(p.unwrap()),
                    },
                ] + rest,
            )
        } else {
            (v2, rest)
        }
    }
}

/// What a whole enumeration yields: a count query, then one property
/// query per index.
pub open spec fn enumerate_outcome<D: Driver>(v: D::V) -> (D::V, Seq<DescV>) {
    let (v1, count) = D::m_camera_count(v);
    enum_loop::<D>(v1, 0, count as int)
}

/// What opening a descriptor does: open, then initialize; if initialize
/// fails after a successful open, the device is closed again before the
/// error is surfaced, so a partial failure leaks no resource.
pub open spec fn open_outcome<D: Driver>(desc: DescV, v: D::V) -> (D::V, Result<CamV, Error>) {
    let (v1, s1) = D::m_open_camera(v, desc.camera_id);
    if s1 != 0 {
        (v1, Err(status_error(s1)))
    } else {
        let (v2, s2) = D::m_init_camera(v1, desc.camera_id);
        if s2 != 0 {
            let (v3, _s3) = D::m_close_camera(v2, desc.camera_id);
            (v3, Err(status_error(s2)))
        } else {
            (
                v2,
                Ok(
                    CamV {
                        camera_id: desc.camera_id,
                        closed: false,
                        properties: desc.properties,
                    },
                ),
            )
        }
    }
}

/// What closing a handle does: a handle that already closed is a no-op
/// success; otherwise the driver close runs, and only success marks the
/// handle closed.
pub open spec fn close_outcome<D: Driver>(cam: CamV, v: D::V) -> (CamV, D::V, Result<(), Error>) {
    if cam.closed {
        (cam, v, Ok(()))
    } else {
        let (v1, s) = D::m_close_camera(v, cam.camera_id);
        if s != 0 {
            (cam, v1, Err(status_error(s)))
        } else {
            (CamV { closed: true, ..cam }, v1, Ok(()))
        }
    }
}

/// What applying a region of interest does: the device state is queried
/// (its own error ignored); an exposure in progress is stopped first,
/// best-effort; then extent and start position are applied as two
/// sequential checked calls, not atomically.
pub open spec fn set_roi_outcome<D: Driver>(cam: CamV, v: D::V, roi_area: ROI) -> (
    D::V,
    Result<(), Error>,
) {
    let (v1, _s, st) = D::m_camera_state(v, cam.camera_id);
    let v2 = if st == CameraState::Exposing {
        D::m_stop_exposure(v1, cam.camera_id).0
    } else {
        v1
    };
    let (v3, s3) = D::m_set_image_size(v2, cam.camera_id, roi_area.width, roi_area.height);
    if s3 != 0 {
        (v3, Err(status_error(s3)))
    } else {
        let (v4, s4) = D::m_set_image_start_pos(v3, cam.camera_id, roi_area.start_x,
            roi_area.start_y);
        (v4, status_result(s4))
    }
}

/// What querying the region of interest does: start position, then
/// extent, each checked.
pub open spec fn roi_outcome<D: Driver>(cam: CamV, v: D::V) -> (D::V, Result<ROI, Error>) {
    let (v1, s1, x, y) = D::m_get_image_start_pos(v, cam.camera_id);
    if s1 != 0 {
        (v1, Err(status_error(s1)))
    } else {
        let (v2, s2, w, h) = D::m_get_image_size(v1, cam.camera_id);
        if s2 != 0 {
            (v2, Err(status_error(s2)))
        } else {
            (v2, Ok(ROI { start_x: x, start_y: y, width: w, height: h }))
        }
    }
}

/// What applying an image extent does: an extent beyond the device's
/// maxima fails locally with OutOfBounds before any driver call; an
/// extent within them goes to the driver.
pub open spec fn set_image_size_outcome<D: Driver>(
    cam: CamV,
    v: D::V,
    width: u32,
    height: u32,
) -> (D::V, Result<(), Error>) {
    if width > cam.properties.max_width || height > cam.properties.max_height {
        (v, Err(Error::OutOfBounds))
    } else {
        let (v1, s) = D::m_set_image_size(v, cam.camera_id, width as i32, height as i32);
        (v1, status_result(s))
    }
}

/// What applying a binning factor does: a factor outside the device's
/// supported set fails locally with OutOfBounds before any driver call;
/// a supported factor goes to the driver, which rescales the geometry on
/// success.
pub open spec fn set_bin_outcome<D: Driver>(cam: CamV, v: D::V, factor: u32) -> (
    D::V,
    Result<(), Error>,
) {
    if !cam.properties.bins.contains(factor) {
        (v, Err(Error::OutOfBounds))
    } else {
        let (v1, s) = D::m_set_image_bin(v, cam.camera_id, factor as i32);
        (v1, status_result(s))
    }
}

/// What collecting the attribute records from one index onward yields:
/// the driver state after the queries made, and either every record or
/// the first failure, which aborts the collection.
pub open spec fn bounds_attrs_loop<D: Driver>(v: D::V, id: i32, i: int, count: int) -> (
    D::V,
    Result<Seq<RawConfigAttributes>, Error>,
)
    decreases count - i,
{
    if i >= count {
        (v, Ok(Seq::empty()))
    } else {
        let (v1, s, a) = D::m_get_config_attributes(v, id, i as i32);
        if s != 0 || a is None {
            (v1, Err(status_error(s)))
        } else {
            let (v2, rest) = bounds_attrs_loop::<D>(v1, id, i + 1, count);
            match rest {
                Ok(tail) => (v2, Ok(seq![a.unwrap()] + tail)),
                Err(e) => (v2, Err(e)),
            }
        }
    }
}

/// What the whole config-bounds snapshot does: a slot count query, one
/// attribute query per index (any failure is fatal to the snapshot),
/// then the collected records decoded with the mandatory slots required
/// and the hardware-dependent ones optional.
pub open spec fn config_bounds_outcome<D: Driver>(cam: CamV, v: D::V) -> (
    D::V,
    Result<AllBoundsV, Error>,
) {
    let (v1, s, count) = D::m_get_configs_count(v, cam.camera_id);
    if s != 0 {
        (v1, Err(status_error(s)))
    } else {
        let (v2, attrs_r) = bounds_attrs_loop::<D>(v1, cam.camera_id, 0, count as int);
        match attrs_r {
            Err(e) => (v2, Err(e)),
            Ok(attrs) => {
                if mandatory_present(collect_bounds(attrs)) {
                    (v2, Ok(promote_bounds(collect_bounds(attrs))))
                } else {
                    (v2, Err(Error::InvalidConfig))
                }
            },
        }
    }
}

/// What writing a configuration slot does: the typed value is marshaled
/// into the untyped cell and handed to the driver under the slot's code.
pub open spec fn set_config_outcome<D: Driver>(
    cam: CamV,
    v: D::V,
    kind: ConfigKind,
    value: ConfigValue,
    is_auto: bool,
) -> (D::V, Result<(), Error>) {
    let (v1, s) = D::m_set_config(v, cam.camera_id, kind.code_spec(), value.spec_to_raw(), is_auto);
    (v1, status_result(s))
}

/// What reading a configuration slot does: the untyped cell the driver
/// hands back is decoded under the slot's statically known type tag,
/// with the is-automatic flag alongside.
pub open spec fn config_value_outcome<D: Driver>(cam: CamV, v: D::V, kind: ConfigKind) -> (
    D::V,
    Result<(ConfigValue, bool), Error>,
) {
    let (v1, s, p) = D::m_get_config(v, cam.camera_id, kind.code_spec());
    if s != 0 {
        (v1, Err(status_error(s)))
    } else {
        (
            v1,
            Ok(
                (
                    ConfigValue::spec_from_raw(p.unwrap().0, kind.value_type_spec()),
                    p.unwrap().1,
                ),
            ),
        )
    }
}

/// Reading an integer-typed slot, with its is-automatic flag.
pub open spec fn int_auto_outcome<D: Driver>(cam: CamV, v: D::V, kind: ConfigKind) -> (
    D::V,
    Result<(i64, bool), Error>,
) {
    let (v1, s, p) = D::m_get_config(v, cam.camera_id, kind.code_spec());
    if s != 0 {
        (v1, Err(status_error(s)))
    } else {
        (v1, Ok((p.unwrap().0.spec_as_int(), p.unwrap().1)))
    }
}

/// Reading an integer-typed slot, value only.
pub open spec fn int_config_outcome<D: Driver>(cam: CamV, v: D::V, kind: ConfigKind) -> (
    D::V,
    Result<i64, Error>,
) {
    let (v1, s, p) = D::m_get_config(v, cam.camera_id, kind.code_spec());
    if s != 0 {
        (v1, Err(status_error(s)))
    } else {
        (v1, Ok(p.unwrap().0.spec_as_int()))
    }
}

/// Reading a boolean-typed slot, value only.
pub open spec fn bool_config_outcome<D: Driver>(cam: CamV, v: D::V, kind: ConfigKind) -> (
    D::V,
    Result<bool, Error>,
) {
    let (v1, s, p) = D::m_get_config(v, cam.camera_id, kind.code_spec());
    if s != 0 {
        (v1, Err(status_error(s)))
    } else {
        (v1, Ok(p.unwrap().0.spec_as_bool()))
    }
}

/// Reading a float-typed slot, value only, as the 64-bit float's bit
/// pattern.
pub open spec fn float_config_outcome<D: Driver>(cam: CamV, v: D::V, kind: ConfigKind) -> (
    D::V,
    Result<u64, Error>,
) {
    let (v1, s, p) = D::m_get_config(v, cam.camera_id, kind.code_spec());
    if s != 0 {
        (v1, Err(status_error(s)))
    } else {
        (v1, Ok(p.unwrap().0.spec_as_float_bits()))
    }
}

impl CameraDescription {
    /// The driver-assigned identifier of the described device.
    pub fn camera_id(&self) -> (r: i32)
        ensures
            r == self@.camera_id,
    {
        self.camera_id
    }

    /// The described device's property snapshot.
    pub fn properties(&self) -> (r: &CameraProperties)
        ensures
            r@ == self@.properties,
    {
        &self.properties
    }

    /// Opens the described device: open, then initialize. If initialize
    /// fails after a successful open, the device is closed again before
    /// the error is surfaced.
    pub fn open<D: Driver>(self, d: &mut D) -> (r: Result<Camera, Error>)
        requires
            D::inv(old(d)@),
        ensures
            D::inv(final(d)@),
            final(d)@ == open_outcome::<D>(self@, old(d)@).0,
            (r is Ok) == (open_outcome::<D>(self@, old(d)@).1 is Ok),
            r matches Ok(cam) ==> open_outcome::<D>(self@, old(d)@).1 == Ok::<CamV, Error>(cam@)
                && cam_wf(cam@) == props_wf(self@.properties),
            r matches Err(e) ==> open_outcome::<D>(self@, old(d)@).1 == Err::<CamV, Error>(e),
    {
        let s1 = d.open_camera(self.camera_id);
        if s1 != 0 {
            return Err(Error::from_status(s1));
        }
        let s2 = d.init_camera(self.camera_id);
        if s2 != 0 {
            let _ = d.close_camera(self.camera_id);
            return Err(Error::from_status(s2));
        }
        Ok(Camera { camera_id: self.camera_id, closed: false, properties: self.properties })
    }
}

impl Camera {
    /// Returns the descriptors of all attached devices, in enumeration
    /// order. An index whose property query fails is skipped: transient
    /// per-device probing failures are expected on multi-camera hosts
    /// and are not fatal to the enumeration.
    pub fn all_cameras<D: Driver>(d: &mut D) -> (r: Vec<CameraDescription>)
        requires
            D::inv(old(d)@),
        ensures
            D::inv(final(d)@),
            final(d)@ == enumerate_outcome::<D>(old(d)@).0,
            views_of_descs(r@) == enumerate_outcome::<D>(old(d)@).1,
            forall|j: int| 0 <= j < r@.len() ==> props_wf((#[trigger] r@[j])@.properties),
    {
        let count = d.camera_count();
        let ghost v1 = d@;
        let mut out: Vec<CameraDescription> = Vec::new();
        let mut i: i32 = 0;
        proof {
            assert(views_of_descs(out@) =~= Seq::<DescV>::empty());
            assert(views_of_descs(out@) + enum_loop::<D>(d@, 0, count as int).1 =~= enum_loop::<
                D,
            >(v1, 0, count as int).1);
        }
        while i < count
            invariant
                0 <= i <= count,
                D::inv(d@),
                enum_loop::<D>(d@, i as int, count as int).0 == enum_loop::<D>(
                    v1,
                    0,
                    count as int,
                ).0,
                views_of_descs(out@) + enum_loop::<D>(d@, i as int, count as int).1 == enum_loop::<
                    D,
                >(v1, 0, count as int).1,
                forall|j: int| 0 <= j < out@.len() ==> props_wf((#[trigger] out@[j])@.properties),
            decreases count - i,
        {
            let ghost pre = d@;
            let ghost outs0 = out@;
            let ghost ii = i as int;
            let (s, p) = d.camera_properties(i);
            if s == 0 {
                if let Some(raw) = p {
                    let desc = CameraDescription {
                        camera_id: raw.camera_id,
                        properties: CameraProperties::from_raw(&raw),
                    };
                    proof {
                        crate::properties::lemma_decoded_props_wf(raw);
                    }
                    let ghost gdesc = desc@;
                    out.push(desc);
                    proof {
                        assert(views_of_descs(out@) =~= views_of_descs(outs0).push(gdesc));
                        assert(gdesc == DescV {
                            camera_id: raw.camera_id,
                            properties: spec_props_of_raw(raw),
                        });
                    }
                }
            }
            i = i + 1;
            proof {
                let rest = enum_loop::<D>(d@, ii + 1, count as int).1;
                assert(views_of_descs(out@) + rest =~= views_of_descs(outs0) + enum_loop::<D>(
                    pre,
                    ii,
                    count as int,
                ).1);
                assert forall|j: int| 0 <= j < out@.len() implies props_wf(
                    (#[trigger] out@[j])@.properties,
                ) by {
                    if j < outs0.len() {
                        assert(out@[j] == outs0[j]);
                    }
                }
            }
        }
        proof {
            assert(views_of_descs(out@) + enum_loop::<D>(d@, count as int, count as int).1
                =~= views_of_descs(out@));
        }
        out
    }

    /// The device's property snapshot.
    pub fn properties(&self) -> (r: &CameraProperties)
        ensures
            r@ == self@.properties,
    {
        &self.properties
    }

    /// The driver-assigned device identifier this handle owns.
    pub fn id(&self) -> (r: i32)
        ensures
            r == self@.camera_id,
    {
        self.camera_id
    }

    /// Closes the device. Idempotent: closing an already-closed handle
    /// is a no-op success, never an error and never a driver call.
    pub fn close<D: Driver>(&mut self, d: &mut D) -> (r: Result<(), Error>)
        requires
            D::inv(old(d)@),
        ensures
            D::inv(final(d)@),
            (final(self)@, final(d)@, r) == close_outcome::<D>(old(self)@, old(d)@),
            r is Ok ==> final(self)@.closed,
    {
        if self.closed {
            return Ok(());
        }
        let s = d.close_camera(self.camera_id);
        if s != 0 {
            return Err(Error::from_status(s));
        }
        self.closed = true;
        Ok(())
    }

    /// Starts a continuous exposure for manual control over frame
    /// fetching.
    pub fn start_exposure<D: Driver>(&mut self, d: &mut D) -> (r: Result<(), Error>)
        requires
            D::inv(old(d)@),
        ensures
            D::inv(final(d)@),
            final(self)@ == old(self)@,
            final(d)@ == D::m_start_exposure(old(d)@, old(self)@.camera_id, true).0,
            r == status_result(D::m_start_exposure(old(d)@, old(self)@.camera_id, true).1),
    {
        let s = d.start_exposure(self.camera_id, true);
        if s != 0 {
            return Err(Error::from_status(s));
        }
        Ok(())
    }

    /// Stops the exposure. Must be called before other camera
    /// operations if a manual exposure was started.
    pub fn stop_exposure<D: Driver>(&mut self, d: &mut D) -> (r: Result<(), Error>)
        requires
            D::inv(old(d)@),
        ensures
            D::inv(final(d)@),
            final(self)@ == old(self)@,
            final(d)@ == D::m_stop_exposure(old(d)@, old(self)@.camera_id).0,
            r == status_result(D::m_stop_exposure(old(d)@, old(self)@.camera_id).1),
    {
        let s = d.stop_exposure(self.camera_id);
        if s != 0 {
            return Err(Error::from_status(s));
        }
        Ok(())
    }

    /// Whether frame data is ready; if true, retrieving the frame will
    /// return immediately.
    pub fn is_image_ready<D: Driver>(&self, d: &mut D) -> (r: Result<bool, Error>)
        requires
            D::inv(old(d)@),
        ensures
            D::inv(final(d)@),
            final(d)@ == D::m_image_ready(old(d)@, self@.camera_id).0,
            ({
                let (_v, s, ready) = D::m_image_ready(old(d)@, self@.camera_id);
                if s == 0 {
                    r == Ok::<bool, Error>(ready)
                } else {
                    r == Err::<bool, Error>(status_error(s))
                }
            }),
    {
        let (s, ready) = d.image_ready(self.camera_id);
        if s != 0 {
            return Err(Error::from_status(s));
        }
        Ok(ready)
    }

    /// Retrieves frame data after an exposure, blocking up to the
    /// timeout in milliseconds (or without bound when none is given).
    /// The buffer must be at least width times height times the current
    /// format's bytes-per-pixel; a driver that finds it too small
    /// reports BufferSizeTooSmall, which is not pre-validated locally
    /// since the driver is authoritative.
    pub fn get_image_data<D: Driver>(
        &self,
        d: &mut D,
        buffer: &mut Vec<u8>,
        timeout_ms: Option<i32>,
    ) -> (r: Result<(), Error>)
        requires
            D::inv(old(d)@),
        ensures
            D::inv(final(d)@),
            ({
                let (v1, s, data) = D::m_get_image_data(
                    old(d)@,
                    self@.camera_id,
                    old(buffer)@,
                    timeout_code(timeout_ms),
                );
                final(d)@ == v1 && final(buffer)@ == data && r == status_result(s)
            }),
    {
        let t = match timeout_ms {
            Some(t) => t,
            None => -1,
        };
        let s = d.get_image_data(self.camera_id, buffer, t);
        if s != 0 {
            return Err(Error::from_status(s));
        }
        Ok(())
    }

    /// Applies the region of interest. If the device is exposing, the
    /// exposure is stopped first (best-effort, its own error swallowed,
    /// since the geometry change is the primary operation); extent and
    /// start position are then applied as two sequential calls, either
    /// failure aborting the operation — the two are not atomic.
    pub fn set_roi<D: Driver>(&mut self, d: &mut D, roi_area: &ROI) -> (r: Result<(), Error>)
        requires
            D::inv(old(d)@),
        ensures
            D::inv(final(d)@),
            final(self)@ == old(self)@,
            (final(d)@, r) == set_roi_outcome::<D>(old(self)@, old(d)@, *roi_area),
    {
        let (_s, st) = d.camera_state(self.camera_id);
        if st == CameraState::Exposing {
            let _ = d.stop_exposure(self.camera_id);
        }
        let s = d.set_image_size(self.camera_id, roi_area.width, roi_area.height);
        if s != 0 {
            return Err(Error::from_status(s));
        }
        let s2 = d.set_image_start_pos(self.camera_id, roi_area.start_x, roi_area.start_y);
        if s2 != 0 {
            return Err(Error::from_status(s2));
        }
        Ok(())
    }

    /// Queries the region of interest: start position, then extent.
    pub fn roi<D: Driver>(&self, d: &mut D) -> (r: Result<ROI, Error>)
        requires
            D::inv(old(d)@),
        ensures
            D::inv(final(d)@),
            (final(d)@, r) == roi_outcome::<D>(self@, old(d)@),
    {
        let (s1, start_x, start_y) = d.get_image_start_pos(self.camera_id);
        if s1 != 0 {
            return Err(Error::from_status(s1));
        }
        let (s2, width, height) = d.get_image_size(self.camera_id);
        if s2 != 0 {
            return Err(Error::from_status(s2));
        }
        Ok(ROI { start_x, start_y, width, height })
    }

    /// Applies the image extent. An extent beyond the device's maxima
    /// fails locally with OutOfBounds and issues no driver call.
    pub fn set_image_size<D: Driver>(&mut self, d: &mut D, width: u32, height: u32) -> (r: Result<
        (),
        Error,
    >)
        requires
            D::inv(old(d)@),
            cam_wf(old(self)@),
        ensures
            D::inv(final(d)@),
            final(self)@ == old(self)@,
            (final(d)@, r) == set_image_size_outcome::<D>(old(self)@, old(d)@, width, height),
    {
        if width > self.properties.max_width || height > self.properties.max_height {
            return Err(Error::OutOfBounds);
        }
        let s = d.set_image_size(self.camera_id, width as i32, height as i32);
        if s != 0 {
            return Err(Error::from_status(s));
        }
        Ok(())
    }

    /// The current image extent; it changes when the binning factor
    /// does.
    pub fn image_size<D: Driver>(&self, d: &mut D) -> (r: Result<(i32, i32), Error>)
        requires
            D::inv(old(d)@),
        ensures
            D::inv(final(d)@),
            final(d)@ == D::m_get_image_size(old(d)@, self@.camera_id).0,
            ({
                let (_v, s, w, h) = D::m_get_image_size(old(d)@, self@.camera_id);
                if s == 0 {
                    r == Ok::<(i32, i32), Error>((w, h))
                } else {
                    r == Err::<(i32, i32), Error>(status_error(s))
                }
            }),
    {
        let (s, width, height) = d.get_image_size(self.camera_id);
        if s != 0 {
            return Err(Error::from_status(s));
        }
        Ok((width, height))
    }

    /// Applies the image start position.
    pub fn set_image_start_pos<D: Driver>(&mut self, d: &mut D, start_x: i32, start_y: i32) -> (r:
        Result<(), Error>)
        requires
            D::inv(old(d)@),
        ensures
            D::inv(final(d)@),
            final(self)@ == old(self)@,
            final(d)@ == D::m_set_image_start_pos(old(d)@, old(self)@.camera_id, start_x, start_y).0,
            r == status_result(
                D::m_set_image_start_pos(old(d)@, old(self)@.camera_id, start_x, start_y).1,
            ),
    {
        let s = d.set_image_start_pos(self.camera_id, start_x, start_y);
        if s != 0 {
            return Err(Error::from_status(s));
        }
        Ok(())
    }

    /// The current image start position; it changes when the binning
    /// factor does.
    pub fn image_start_pos<D: Driver>(&self, d: &mut D) -> (r: Result<(i32, i32), Error>)
        requires
            D::inv(old(d)@),
        ensures
            D::inv(final(d)@),
            final(d)@ == D::m_get_image_start_pos(old(d)@, self@.camera_id).0,
            ({
                let (_v, s, x, y) = D::m_get_image_start_pos(old(d)@, self@.camera_id);
                if s == 0 {
                    r == Ok::<(i32, i32), Error>((x, y))
                } else {
                    r == Err::<(i32, i32), Error>(status_error(s))
                }
            }),
    {
        let (s, start_x, start_y) = d.get_image_start_pos(self.camera_id);
        if s != 0 {
            return Err(Error::from_status(s));
        }
        Ok((start_x, start_y))
    }

    /// Applies a pixel format.
    pub fn set_image_format<D: Driver>(&mut self, d: &mut D, image_format: ImageFormat) -> (r:
        Result<(), Error>)
        requires
            D::inv(old(d)@),
        ensures
            D::inv(final(d)@),
            final(self)@ == old(self)@,
            final(d)@ == D::m_set_image_format(
                old(d)@,
                old(self)@.camera_id,
                image_format.code_spec(),
            ).0,
            r == status_result(
                D::m_set_image_format(old(d)@, old(self)@.camera_id, image_format.code_spec()).1,
            ),
    {
        let s = d.set_image_format(self.camera_id, image_format.code());
        if s != 0 {
            return Err(Error::from_status(s));
        }
        Ok(())
    }

    /// The current pixel format.
    pub fn image_format<D: Driver>(&self, d: &mut D) -> (r: Result<ImageFormat, Error>)
        requires
            D::inv(old(d)@),
        ensures
            D::inv(final(d)@),
            final(d)@ == D::m_get_image_format(old(d)@, self@.camera_id).0,
            ({
                let (_v, s, code) = D::m_get_image_format(old(d)@, self@.camera_id);
                if s == 0 {
                    r == Ok::<ImageFormat, Error>(ImageFormat::spec_from_code(code).unwrap())
                } else {
                    r == Err::<ImageFormat, Error>(status_error(s))
                }
            }),
    {
        let (s, code) = d.get_image_format(self.camera_id);
        if s != 0 {
            return Err(Error::from_status(s));
        }
        match ImageFormat::from_code(code) {
            Some(f) => Ok(f),
            None => Err(Error::OperationFailed),
        }
    }

    /// Applies a binning factor. A factor outside the supported set in
    /// the device's properties fails locally with OutOfBounds and issues
    /// no driver call. On success the driver rescales the image extent
    /// and start position: query both again rather than assume prior
    /// values still hold.
    pub fn set_bin<D: Driver>(&mut self, d: &mut D, bin: u32) -> (r: Result<(), Error>)
        requires
            D::inv(old(d)@),
            cam_wf(old(self)@),
        ensures
            D::inv(final(d)@),
            final(self)@ == old(self)@,
            (final(d)@, r) == set_bin_outcome::<D>(old(self)@, old(d)@, bin),
    {
        if !crate::properties::contains_bin(&self.properties.bins, bin) {
            return Err(Error::OutOfBounds);
        }
        proof {
            let k = choose|k: int|
                0 <= k < old(self)@.properties.bins.len() && old(self)@.properties.bins[k] == bin;
            assert(1 <= old(self)@.properties.bins[k] <= 0x7fff_ffff);
        }
        let s = d.set_image_bin(self.camera_id, bin as i32);
        if s != 0 {
            return Err(Error::from_status(s));
        }
        Ok(())
    }

    /// The current binning factor.
    pub fn bin<D: Driver>(&self, d: &mut D) -> (r: Result<u32, Error>)
        requires
            D::inv(old(d)@),
        ensures
            D::inv(final(d)@),
            final(d)@ == D::m_get_image_bin(old(d)@, self@.camera_id).0,
            ({
                let (_v, s, b) = D::m_get_image_bin(old(d)@, self@.camera_id);
                if s == 0 {
                    r == Ok::<u32, Error>(b as u32)
                } else {
                    r == Err::<u32, Error>(status_error(s))
                }
            }),
    {
        let (s, b) = d.get_image_bin(self.camera_id);
        if s != 0 {
            return Err(Error::from_status(s));
        }
        Ok(b as u32)
    }

    /// Queries the bounds of every configuration slot the device
    /// exposes: a slot count, then one attribute record per index, any
    /// failure fatal to the snapshot; the records decode with the
    /// mandatory slots required and the hardware-dependent ones
    /// (white balance, cooler, heater, fan) optional.
    pub fn config_bounds<D: Driver>(&self, d: &mut D) -> (r: Result<AllConfigBounds, Error>)
        requires
            D::inv(old(d)@),
        ensures
            D::inv(final(d)@),
            final(d)@ == config_bounds_outcome::<D>(self@, old(d)@).0,
            (r is Ok) == (config_bounds_outcome::<D>(self@, old(d)@).1 is Ok),
            r matches Ok(b) ==> config_bounds_outcome::<D>(self@, old(d)@).1 == Ok::<
                AllBoundsV,
                Error,
            >(b@),
            r matches Err(e) ==> config_bounds_outcome::<D>(self@, old(d)@).1 == Err::<
                AllBoundsV,
                Error,
            >(e),
    {
        let (s, count) = d.get_configs_count(self.camera_id);
        if s != 0 {
            return Err(Error::from_status(s));
        }
        let ghost v1 = d@;
        let ghost cid = self@.camera_id;
        let mut attrs: Vec<RawConfigAttributes> = Vec::new();
        let mut i: i32 = 0;
        proof {
            let full = bounds_attrs_loop::<D>(v1, cid, 0, count as int);
            if full.1 is Ok {
                assert(attrs@ + full.1.unwrap() =~= full.1.unwrap());
            }
        }
        while i < count
            invariant
                0 <= i <= count,
                D::inv(d@),
                bounds_attrs_loop::<D>(d@, cid, i as int, count as int).0 == bounds_attrs_loop::<
                    D,
                >(v1, cid, 0, count as int).0,
                bounds_attrs_loop::<D>(v1, cid, 0, count as int).1 == match bounds_attrs_loop::<
                    D,
                >(d@, cid, i as int, count as int).1 {
                    Ok(tail) => Ok::<Seq<RawConfigAttributes>, Error>(attrs@ + tail),
                    Err(e) => Err::<Seq<RawConfigAttributes>, Error>(e),
                },
                cid == self@.camera_id,
                D::m_get_configs_count(old(d)@, cid).0 == v1,
                D::m_get_configs_count(old(d)@, cid).1 == 0,
                D::m_get_configs_count(old(d)@, cid).2 == count,
                forall|j: int|
                    0 <= j < attrs@.len() ==> crate::config::attr_tag_consistent(
                        #[trigger] attrs@[j],
                    ),
            decreases count - i,
        {
            let ghost pre = d@;
            let ghost attrs0 = attrs@;
            let ghost ii = i as int;
            let (s2, a) = d.get_config_attributes(self.camera_id, i);
            if s2 != 0 {
                proof {
                    assert(ii as i32 == i);
                    assert(bounds_attrs_loop::<D>(pre, cid, ii, count as int).0 == d@);
                    assert(bounds_attrs_loop::<D>(pre, cid, ii, count as int).1 == Err::<
                        Seq<RawConfigAttributes>,
                        Error,
                    >(status_error(s2)));
                }
                return Err(Error::from_status(s2));
            }
            match a {
                Some(rec) => {
                    attrs.push(rec);
                },
                None => {
                    proof {
                        assert(false);
                    }
                    return Err(Error::OperationFailed);
                },
            }
            i = i + 1;
            proof {
                let rest = bounds_attrs_loop::<D>(d@, cid, ii + 1, count as int).1;
                if rest is Ok {
                    assert(attrs0 + (seq![attrs@[attrs@.len() - 1]] + rest.unwrap()) =~= attrs@
                        + rest.unwrap());
                }
            }
        }
        proof {
            let full = bounds_attrs_loop::<D>(v1, cid, 0, count as int);
            assert(attrs@ + Seq::<RawConfigAttributes>::empty() =~= attrs@);
            assert(full.1 == Ok::<Seq<RawConfigAttributes>, Error>(attrs@));
            assert(full.0 == d@);
        }
        AllConfigBounds::from_attributes(&attrs)
    }

    /// Sets the exposure time in microseconds, optionally auto-adjusted.
    pub fn set_exposure<D: Driver>(&mut self, d: &mut D, exposure_micros: i64, is_auto: bool) -> (r:
        Result<(), Error>)
        requires
            D::inv(old(d)@),
        ensures
            D::inv(final(d)@),
            final(self)@ == old(self)@,
            (final(d)@, r) == set_config_outcome::<D>(
                old(self)@,
                old(d)@,
                ConfigKind::Exposure,
                ConfigValue::Int(exposure_micros),
                is_auto,
            ),
    {
        self.set_config_value(d, ConfigKind::Exposure, ConfigValue::Int(exposure_micros), is_auto)
    }

    /// Sets the gain, optionally auto-adjusted.
    pub fn set_gain<D: Driver>(&mut self, d: &mut D, gain: i64, is_auto: bool) -> (r: Result<
        (),
        Error,
    >)
        requires
            D::inv(old(d)@),
        ensures
            D::inv(final(d)@),
            final(self)@ == old(self)@,
            (final(d)@, r) == set_config_outcome::<D>(
                old(self)@,
                old(d)@,
                ConfigKind::Gain,
                ConfigValue::Int(gain),
                is_auto,
            ),
    {
        self.set_config_value(d, ConfigKind::Gain, ConfigValue::Int(gain), is_auto)
    }

    /// Exposure in microseconds and whether it is auto-adjusted.
    pub fn exposure<D: Driver>(&self, d: &mut D) -> (r: Result<(i64, bool), Error>)
        requires
            D::inv(old(d)@),
        ensures
            D::inv(final(d)@),
            (final(d)@, r) == int_auto_outcome::<D>(self@, old(d)@, ConfigKind::Exposure),
    {
        self.config_int_auto(d, ConfigKind::Exposure)
    }

    /// Gain and whether it is auto-adjusted.
    pub fn gain<D: Driver>(&self, d: &mut D) -> (r: Result<(i64, bool), Error>)
        requires
            D::inv(old(d)@),
        ensures
            D::inv(final(d)@),
            (final(d)@, r) == int_auto_outcome::<D>(self@, old(d)@, ConfigKind::Gain),
    {
        self.config_int_auto(d, ConfigKind::Gain)
    }

    /// Writes one configuration slot: the typed value is marshaled into
    /// the driver's untyped cell under the slot's code.
    pub(crate) fn set_config_value<D: Driver>(
        &mut self,
        d: &mut D,
        kind: ConfigKind,
        value: ConfigValue,
        is_auto: bool,
    ) -> (r: Result<(), Error>)
        requires
            D::inv(old(d)@),
        ensures
            D::inv(final(d)@),
            final(self)@ == old(self)@,
            (final(d)@, r) == set_config_outcome::<D>(old(self)@, old(d)@, kind, value, is_auto),
    {
        let raw = value.to_raw();
        let s = d.set_config(self.camera_id, kind.code(), raw, is_auto);
        if s != 0 {
            return Err(Error::from_status(s));
        }
        Ok(())
    }

    /// Reads one configuration slot, decoding the untyped cell under the
    /// slot's statically known type tag, with the is-automatic flag.
    pub(crate) fn config_value_auto<D: Driver>(&self, d: &mut D, kind: ConfigKind) -> (r: Result<
        (ConfigValue, bool),
        Error,
    >)
        requires
            D::inv(old(d)@),
        ensures
            D::inv(final(d)@),
            (final(d)@, r) == config_value_outcome::<D>(self@, old(d)@, kind),
    {
        let (s, p) = d.get_config(self.camera_id, kind.code());
        if s != 0 {
            return Err(Error::from_status(s));
        }
        match p {
            Some((raw, auto)) => Ok((ConfigValue::from_raw(raw, kind.value_type()), auto)),
            None => Err(Error::OperationFailed),
        }
    }

    /// Reads an integer-typed slot with its is-automatic flag.
    pub(crate) fn config_int_auto<D: Driver>(&self, d: &mut D, kind: ConfigKind) -> (r: Result<
        (i64, bool),
        Error,
    >)
        requires
            D::inv(old(d)@),
            kind.value_type_spec() == crate::value::ValueType::Int,
        ensures
            D::inv(final(d)@),
            (final(d)@, r) == int_auto_outcome::<D>(self@, old(d)@, kind),
    {
        match self.config_value_auto(d, kind) {
            Err(e) => Err(e),
            Ok((value, auto)) => Ok((value.as_int(), auto)),
        }
    }

    /// Reads an integer-typed slot, value only.
    pub(crate) fn config_int<D: Driver>(&self, d: &mut D, kind: ConfigKind) -> (r: Result<i64, Error>)
        requires
            D::inv(old(d)@),
            kind.value_type_spec() == crate::value::ValueType::Int,
        ensures
            D::inv(final(d)@),
            (final(d)@, r) == int_config_outcome::<D>(self@, old(d)@, kind),
    {
        match self.config_int_auto(d, kind) {
            Err(e) => Err(e),
            Ok((value, _auto)) => Ok(value),
        }
    }

    /// Reads a boolean-typed slot, value only.
    pub(crate) fn config_bool<D: Driver>(&self, d: &mut D, kind: ConfigKind) -> (r: Result<bool, Error>)
        requires
            D::inv(old(d)@),
            kind.value_type_spec() == crate::value::ValueType::Bool,
        ensures
            D::inv(final(d)@),
            (final(d)@, r) == bool_config_outcome::<D>(self@, old(d)@, kind),
    {
        match self.config_value_auto(d, kind) {
            Err(e) => Err(e),
            Ok((value, _auto)) => Ok(value.as_bool()),
        }
    }

    /// Reads a float-typed slot, value only, as the 64-bit float's bit
    /// pattern.
    pub(crate) fn config_float_bits<D: Driver>(&self, d: &mut D, kind: ConfigKind) -> (r: Result<u64, Error>)
        requires
            D::inv(old(d)@),
            kind.value_type_spec() == crate::value::ValueType::Float,
        ensures
            D::inv(final(d)@),
            (final(d)@, r) == float_config_outcome::<D>(self@, old(d)@, kind),
    {
        match self.config_value_auto(d, kind) {
            Err(e) => Err(e),
            Ok((value, _auto)) => Ok(value.as_float_bits()),
        }
    }
}

/// Closing twice in a row succeeds both times: a successful close leaves
/// the handle marked closed, and closing a closed handle is a no-op
/// success that changes nothing.
pub proof fn lemma_close_idempotent<D: Driver>(cam: CamV, v: D::V)
    ensures
        ({
            let (c1, v1, r1) = close_outcome::<D>(cam, v);
            let (c2, v2, r2) = close_outcome::<D>(c1, v1);
            r1 is Ok ==> r2 == Ok::<(), Error>(()) && c2 == c1 && v2 == v1
        }),
{
}

/// An extent beyond the device's maxima is rejected locally with
/// OutOfBounds, and the driver is left untouched: no driver call is
/// issued.
pub proof fn lemma_set_image_size_oversize_rejected<D: Driver>(
    cam: CamV,
    v: D::V,
    width: u32,
    height: u32,
)
    requires
        width > cam.properties.max_width || height > cam.properties.max_height,
    ensures
        set_image_size_outcome::<D>(cam, v, width, height) == (
            v,
            Err::<(), Error>(Error::OutOfBounds),
        ),
{
}

/// A binning factor outside the supported set is rejected locally with
/// OutOfBounds, and the driver is left untouched: no driver call is
/// issued.
pub proof fn lemma_set_bin_unsupported_rejected<D: Driver>(cam: CamV, v: D::V, factor: u32)
    requires
        !cam.properties.bins.contains(factor),
    ensures
        set_bin_outcome::<D>(cam, v, factor) == (v, Err::<(), Error>(Error::OutOfBounds)),
{
}

/// Opening a device and closing it straight away leaves no residual
/// state that would make a second open of the same descriptor fail: if
/// the first open succeeded and the close succeeded, the second open
/// succeeds too. The layer itself keeps nothing between the two opens —
/// a reopen issues fresh driver open and initialize calls whatever came
/// before, as `open_outcome` shows for every driver — so the success
/// claim is stated where it is decidable, over the verified in-memory
/// driver's model.
pub proof fn lemma_reopen_after_close(desc: DescV, v: SimDriverV)
    requires
        open_outcome::<SimDriver>(desc, v).1 is Ok,
    ensures
        ({
            let (v1, r1) = open_outcome::<SimDriver>(desc, v);
            let (c2, v2, r2) = close_outcome::<SimDriver>(r1.unwrap(), v1);
            r2 is Ok && open_outcome::<SimDriver>(desc, v2).1 is Ok
        }),
{
    let id = desc.camera_id;
    let i = dev_index(v.devices, id);
    assert(i >= 0);
    lemma_dev_index_found(v.devices, id);
    let (v1, r1) = open_outcome::<SimDriver>(desc, v);
    assert(v1.devices[i].raw.camera_id == id);
    assert forall|j: int| 0 <= j < i implies v1.devices[j].raw.camera_id != id by {}
    lemma_dev_index_first(v1.devices, id, i);
    let (c2, v2, r2) = close_outcome::<SimDriver>(r1.unwrap(), v1);
    assert(r2 is Ok);
    lemma_dev_index_first(v2.devices, id, i);
    let (v3, r3) = open_outcome::<SimDriver>(desc, v2);
    let v2o = crate::sim::SimDriverV {
        devices: v2.devices.update(
            i,
            crate::sim::SimDeviceV { opened: true, ..v2.devices[i] },
        ),
        calls: v2.calls.push(crate::sim::DriverCall::OpenCamera(id)),
    };
    lemma_dev_index_first(v2o.devices, id, i);
    assert(r3 is Ok);
}

} // verus!
