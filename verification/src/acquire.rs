//! Acquisition: sizing the reusable frame buffer, single-shot capture,
//! and the streaming engine that drives continuous retrieve/consume
//! cycles with caller-controlled termination and timeout.

use vstd::prelude::*;

use crate::camera::status_result;
use crate::camera::timeout_code;
use crate::camera::CamV;
use crate::camera::Camera;
use crate::driver::Driver;
use crate::error::status_error;
use crate::error::Error;
use crate::properties::frame_bytes;
use crate::properties::ImageFormat;

verus! {

/// How a stream ended without an error: by the consumer's stop signal,
/// or because the caller's frame budget ran out first.
#[derive(Debug, Copy, Clone, PartialEq, Eq, Structural)]
pub enum StreamEnd {
    /// The consumer signalled stop.
    Stopped,
    /// The frame budget was exhausted before the consumer signalled
    /// stop.
    BudgetExhausted,
}

/// A frame consumer driving a stream: it receives the camera handle and
/// the freshly filled buffer and decides whether streaming continues.
/// An implementation defines its own mathematical view together with a
/// ghost transition, so streaming can be verified against exactly what
/// the consumer decides.
pub trait Consumer: View + Sized {
    /// Transition of [`Consumer::consume`]: next consumer state and
    /// whether streaming continues.
    spec fn m_consume(v: Self::V, cam: CamV, frame: Seq<u8>) -> (Self::V, bool);

    /// Receives the camera handle and the freshly filled buffer; returns
    /// whether streaming should continue. The same buffer is overwritten
    /// every iteration: a consumer that needs the data beyond this call
    /// must copy it out.
    fn consume(&mut self, cam: &Camera, frame: &Vec<u8>) -> (r: bool)
        ensures
            final(self)@ == Self::m_consume(old(self)@, cam@, frame@).0,
            r == Self::m_consume(old(self)@, cam@, frame@).1,
    ;
}

/// A consumer that counts the frames it receives and, if asked, signals
/// stop once a set number has been seen.
#[derive(Debug, Copy, Clone, PartialEq, Eq, Structural)]
pub struct FrameCounter {
    /// How many frames this consumer has been handed (saturating).
    pub frames_seen: u64,
    /// Stop once this many frames have been seen; none means continue
    /// for as long as the stream runs.
    pub stop_after: Option<u64>,
}

impl View for FrameCounter {
    type V = FrameCounter;

    open spec fn view(&self) -> FrameCounter {
        *self
    }
}

impl FrameCounter {
    /// A fresh counter, optionally stopping after a set number of
    /// frames.
    pub fn new(stop_after: Option<u64>) -> (r: FrameCounter)
        ensures
            r == (FrameCounter { frames_seen: 0, stop_after }),
    {
        FrameCounter { frames_seen: 0, stop_after }
    }
}

impl Consumer for FrameCounter {
    open spec fn m_consume(v: FrameCounter, cam: CamV, frame: Seq<u8>) -> (FrameCounter, bool) {
        let seen = if v.frames_seen == u64::MAX {
            u64::MAX
        } else {
            (v.frames_seen + 1) as u64
        };
        let cont = match v.stop_after {
            Some(k) => seen < k,
            None => true,
        };
        (FrameCounter { frames_seen: seen, ..v }, cont)
    }

    fn consume(&mut self, cam: &Camera, frame: &Vec<u8>) -> (r: bool) {
        if self.frames_seen < u64::MAX {
            self.frames_seen = self.frames_seen + 1;
        }
        match self.stop_after {
            Some(k) => self.frames_seen < k,
            None => true,
        }
    }
}

/// What sizing the frame buffer does: query extent and format, then
/// allocate width times height times bytes-per-pixel zeroed bytes; a
/// size beyond the address space fails with OutOfBounds.
pub open spec fn image_buffer_outcome<D: Driver>(cam: CamV, v: D::V) -> (
    D::V,
    Result<Seq<u8>, Error>,
) {
    let (v1, s1, w, h) = D::m_get_image_size(v, cam.camera_id);
    if s1 != 0 {
        (v1, Err(status_error(s1)))
    } else {
        let (v2, s2, code) = D::m_get_image_format(v1, cam.camera_id);
        if s2 != 0 {
            (v2, Err(status_error(s2)))
        } else {
            let n = frame_bytes(w, h, code);
            if n > usize::MAX {
                (v2, Err(Error::OutOfBounds))
            } else {
                (v2, Ok(Seq::new(n, |k: int| 0u8)))
            }
        }
    }
}

/// What single-shot capture does: start a single exposure, block for one
/// frame into the caller's buffer, then always stop the exposure (done
/// defensively even though a single exposure stops itself) before
/// returning; a retrieval failure is surfaced over the stop's own
/// status.
pub open spec fn capture_outcome<D: Driver>(
    cam: CamV,
    v: D::V,
    buf: Seq<u8>,
    timeout: Option<i32>,
) -> (D::V, Seq<u8>, Result<(), Error>) {
    let (v1, s1) = D::m_start_exposure(v, cam.camera_id, false);
    if s1 != 0 {
        (v1, buf, Err(status_error(s1)))
    } else {
        let (v2, s2, data) = D::m_get_image_data(v1, cam.camera_id, buf, timeout_code(timeout));
        let (v3, s3) = D::m_stop_exposure(v2, cam.camera_id);
        if s2 != 0 {
            (v3, data, Err(status_error(s2)))
        } else {
            (v3, data, status_result(s3))
        }
    }
}

/// Whether a stream timeout cannot be carried in the driver's signed
/// 32-bit millisecond parameter.
pub open spec fn stream_timeout_invalid(t: Option<u32>) -> bool {
    match t {
        Some(x) => x > 0x7fff_ffff,
        None => false,
    }
}

/// The driver-level timeout a stream timeout is passed as: negative
/// means block without bound.
pub open spec fn stream_timeout_code(t: Option<u32>) -> i32 {
    match t {
        Some(x) => x as i32,
        None => -1i32,
    }
}

/// What the per-frame loop does, with a frame budget: block for a frame
/// (a retrieval failure stops the exposure best-effort and ends the
/// stream with that error), hand it to the consumer, and continue until
/// the consumer signals stop or the budget runs out.
pub open spec fn stream_frames<D: Driver, C: Consumer>(
    cam: CamV,
    v: D::V,
    c: C::V,
    buf: Seq<u8>,
    timeout_ms: i32,
    fuel: nat,
) -> (D::V, C::V, Seq<u8>, Result<StreamEnd, Error>)
    decreases fuel,
{
    if fuel == 0 {
        (v, c, buf, Ok(StreamEnd::BudgetExhausted))
    } else {
        let (v1, s, data) = D::m_get_image_data(v, cam.camera_id, buf, timeout_ms);
        if s != 0 {
            let (v2, _s2) = D::m_stop_exposure(v1, cam.camera_id);
            (v2, c, data, Err(status_error(s)))
        } else {
            let (c1, cont) = C::m_consume(c, cam, data);
            if !cont {
                (v1, c1, data, Ok(StreamEnd::Stopped))
            } else {
                stream_frames::<D, C>(cam, v1, c1, data, timeout_ms, (fuel - 1) as nat)
            }
        }
    }
}

/// What a whole stream does: validate the timeout locally, allocate one
/// reusable buffer, start a continuous exposure once, then run the
/// per-frame loop.
pub open spec fn stream_outcome<D: Driver, C: Consumer>(
    cam: CamV,
    v: D::V,
    c: C::V,
    timeout: Option<u32>,
    max_frames: usize,
) -> (D::V, C::V, Result<StreamEnd, Error>) {
    if stream_timeout_invalid(timeout) {
        (v, c, Err(Error::OutOfBounds))
    } else {
        let (v2, buf_r) = image_buffer_outcome::<D>(cam, v);
        match buf_r {
            Err(e) => (v2, c, Err(e)),
            Ok(buf0) => {
                let (v3, s3) = D::m_start_exposure(v2, cam.camera_id, true);
                if s3 != 0 {
                    (v3, c, Err(status_error(s3)))
                } else {
                    let (v4, c4, _b, r) = stream_frames::<D, C>(
                        cam,
                        v3,
                        c,
                        buf0,
                        stream_timeout_code(timeout),
                        max_frames as nat,
                    );
                    (v4, c4, r)
                }
            },
        }
    }
}

impl Camera {
    /// Allocates a zeroed buffer of the proper size to hold one frame:
    /// the current extent times the current format's bytes-per-pixel.
    pub fn create_image_buffer<D: Driver>(&self, d: &mut D) -> (r: Result<Vec<u8>, Error>)
        requires
            D::inv(old(d)@),
        ensures
            D::inv(final(d)@),
            final(d)@ == image_buffer_outcome::<D>(self@, old(d)@).0,
            (r is Ok) == (image_buffer_outcome::<D>(self@, old(d)@).1 is Ok),
            r matches Ok(buf) ==> image_buffer_outcome::<D>(self@, old(d)@).1 == Ok::<
                Seq<u8>,
                Error,
            >(buf@),
            r matches Err(e) ==> image_buffer_outcome::<D>(self@, old(d)@).1 == Err::<
                Seq<u8>,
                Error,
            >(e),
    {
        let (s1, w, h) = d.get_image_size(self.id());
        if s1 != 0 {
            return Err(Error::from_status(s1));
        }
        let (s2, code) = d.get_image_format(self.id());
        if s2 != 0 {
            return Err(Error::from_status(s2));
        }
        let bpp = match ImageFormat::from_code(code) {
            Some(f) => f.bytes_per_pixel(),
            None => 1,
        };
        proof {
            assert(bpp <= 3);
            assert((w as u64) * (h as u64) <= 0x3fff_ffff_0000_0001u64) by (nonlinear_arith)
                requires
                    w as u64 <= 0x7fff_ffffu64,
                    h as u64 <= 0x7fff_ffffu64,
            ;
        }
        let wh = (w as u64) * (h as u64);
        proof {
            assert(wh * (bpp as u64) <= 0xbfff_fffd_0000_0003u64) by (nonlinear_arith)
                requires
                    wh <= 0x3fff_ffff_0000_0001u64,
                    bpp as u64 <= 3u64,
            ;
        }
        let n64 = wh * (bpp as u64);
        proof {
            assert((w as u64) * (h as u64) * (bpp as u64) == frame_bytes(w, h, code))
                by (nonlinear_arith)
                requires
                    w >= 0,
                    h >= 0,
                    bpp == crate::properties::bpp_of_code(code),
            ;
        }
        if n64 > usize::MAX as u64 {
            return Err(Error::OutOfBounds);
        }
        let n = n64 as usize;
        let mut buf: Vec<u8> = Vec::new();
        let mut j: usize = 0;
        while j < n
            invariant
                j <= n,
                buf@ =~= Seq::new(j as nat, |k: int| 0u8),
            decreases n - j,
        {
            buf.push(0);
            j = j + 1;
            proof {
                assert(buf@ =~= Seq::new(j as nat, |k: int| 0u8));
            }
        }
        proof {
            assert(buf@ =~= Seq::new(frame_bytes(w, h, code), |k: int| 0u8));
        }
        Ok(buf)
    }

    /// Gets a single frame into the caller's buffer, blocking up to the
    /// timeout in milliseconds (or without bound when none is given):
    /// start a single exposure, block for the frame, then always stop
    /// the exposure — defensively, even though a single exposure stops
    /// itself — before returning. For continuous frames prefer the
    /// stream method.
    pub fn capture<D: Driver>(
        &mut self,
        d: &mut D,
        buffer: &mut Vec<u8>,
        timeout: Option<i32>,
    ) -> (r: Result<(), Error>)
        requires
            D::inv(old(d)@),
        ensures
            D::inv(final(d)@),
            final(self)@ == old(self)@,
            (final(d)@, final(buffer)@, r) == capture_outcome::<D>(
                old(self)@,
                old(d)@,
                old(buffer)@,
                timeout,
            ),
    {
        let s1 = d.start_exposure(self.id(), false);
        if s1 != 0 {
            return Err(Error::from_status(s1));
        }
        let t = match timeout {
            Some(t) => t,
            None => -1,
        };
        let s2 = d.get_image_data(self.id(), buffer, t);
        let s3 = d.stop_exposure(self.id());
        if s2 != 0 {
            return Err(Error::from_status(s2));
        }
        if s3 != 0 {
            return Err(Error::from_status(s3));
        }
        Ok(())
    }

    /// Calls the consumer continuously with the newest frame data, up to
    /// a frame budget: one reusable buffer is allocated and overwritten
    /// every iteration, a continuous exposure is started once, and the
    /// loop ends when the consumer signals stop, the budget runs out
    /// (the success value says which), or a retrieval fails — the
    /// exposure is then stopped best-effort and that error is returned.
    /// A timeout beyond the driver's signed 32-bit millisecond range
    /// fails locally with OutOfBounds before anything is touched.
    pub fn stream<D: Driver, C: Consumer>(
        &mut self,
        d: &mut D,
        timeout: Option<u32>,
        consumer: &mut C,
        max_frames: usize,
    ) -> (r: Result<StreamEnd, Error>)
        requires
            D::inv(old(d)@),
        ensures
            D::inv(final(d)@),
            final(self)@ == old(self)@,
            (final(d)@, final(consumer)@, r) == stream_outcome::<D, C>(
                old(self)@,
                old(d)@,
                old(consumer)@,
                timeout,
                max_frames,
            ),
    {
        if let Some(t) = timeout {
            if t > 0x7fff_ffff {
                return Err(Error::OutOfBounds);
            }
        }
        let t_ms: i32 = match timeout {
            Some(t) => t as i32,
            None => -1,
        };
        let mut buffer = match self.create_image_buffer(d) {
            Ok(b) => b,
            Err(e) => {
                return Err(e);
            },
        };
        let cam_id = self.id();
        let s3 = d.start_exposure(cam_id, true);
        if s3 != 0 {
            return Err(Error::from_status(s3));
        }
        let ghost start_v = d@;
        let ghost start_c = consumer@;
        let ghost buf0 = buffer@;
        let mut remaining = max_frames;
        proof {
            assert(stream_outcome::<D, C>(old(self)@, old(d)@, old(consumer)@, timeout, max_frames)
                == ({
                let (v4, c4, _b, r) = stream_frames::<D, C>(
                    old(self)@,
                    start_v,
                    start_c,
                    buf0,
                    t_ms,
                    max_frames as nat,
                );
                (v4, c4, r)
            }));
        }
        while remaining > 0
            invariant
                D::inv(d@),
                self@ == old(self)@,
                cam_id == old(self)@.camera_id,
                remaining <= max_frames,
                stream_frames::<D, C>(old(self)@, d@, consumer@, buffer@, t_ms, remaining as nat)
                    == stream_frames::<D, C>(
                    old(self)@,
                    start_v,
                    start_c,
                    buf0,
                    t_ms,
                    max_frames as nat,
                ),
                stream_outcome::<D, C>(old(self)@, old(d)@, old(consumer)@, timeout, max_frames)
                    == ({
                    let (v4, c4, _b, r) = stream_frames::<D, C>(
                        old(self)@,
                        start_v,
                        start_c,
                        buf0,
                        t_ms,
                        max_frames as nat,
                    );
                    (v4, c4, r)
                }),
            decreases remaining,
        {
            let ghost pre_v = d@;
            let ghost pre_c = consumer@;
            let ghost pre_buf = buffer@;
            let s = d.get_image_data(cam_id, &mut buffer, t_ms);
            if s != 0 {
                let _ = d.stop_exposure(cam_id);
                proof {
                    assert(stream_frames::<D, C>(
                        old(self)@,
                        pre_v,
                        pre_c,
                        pre_buf,
                        t_ms,
                        remaining as nat,
                    ) == (d@, consumer@, buffer@, Err::<StreamEnd, Error>(status_error(s))));
                }
                return Err(Error::from_status(s));
            }
            let cont = consumer.consume(&*self, &buffer);
            if !cont {
                proof {
                    assert(stream_frames::<D, C>(
                        old(self)@,
                        pre_v,
                        pre_c,
                        pre_buf,
                        t_ms,
                        remaining as nat,
                    ) == (d@, consumer@, buffer@, Ok::<StreamEnd, Error>(StreamEnd::Stopped)));
                }
                return Ok(StreamEnd::Stopped);
            }
            remaining = remaining - 1;
            proof {
                assert(stream_frames::<D, C>(
                    old(self)@,
                    pre_v,
                    pre_c,
                    pre_buf,
                    t_ms,
                    (remaining + 1) as nat,
                ) == stream_frames::<D, C>(
                    old(self)@,
                    d@,
                    consumer@,
                    buffer@,
                    t_ms,
                    remaining as nat,
                ));
            }
        }
        Ok(StreamEnd::BudgetExhausted)
    }
}

} // verus!
