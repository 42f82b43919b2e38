//! The decoder stage: epoch tracking, packet admission and frame
//! timing.
//!
//! The decoder pulls packet envelopes, feeds admitted packets to the
//! codec backend and times every decoded frame: the presentation
//! timestamp is rescaled from the stream time base to milliseconds
//! (rounding toward zero) and the delta to the previous frame of the
//! same epoch is computed, 0 for the first frame of an epoch.

use vstd::prelude::*;

use crate::frame::PacketData;
use crate::pixel::PixelFormat;
use crate::rational::{spec_rescale, Rational};

verus! {

/// The timestamp a decoded frame carries, with a missing timestamp
/// read as 0.
pub open spec fn spec_pts(pts: Option<i64>) -> int {
    match pts {
        Some(t) => t as int,
        None => 0,
    }
}

/// A timestamp's value in milliseconds: rescaled from the stream time
/// base, rounded toward zero.
pub open spec fn spec_frame_time_ms(ts: int, tb: Rational) -> int {
    spec_rescale(ts, tb, Rational { num: 1, den: 1000 })
}

/// The decoder's worker-local state.
pub struct DecoderState {
    /// The epoch the decoder currently produces under.
    pub seek_serial: u64,
    /// Whether end-of-stream has been sent to the codec backend.
    pub sent_eof: bool,
    /// The millisecond time of the last frame emitted in this epoch.
    pub last_frame_time: Option<u64>,
    /// The time base of the selected stream.
    pub time_base: Rational,
    /// The output pixel format frames are scaled to.
    pub pixel_format: PixelFormat,
}

impl DecoderState {
    pub open spec fn wf(self) -> bool {
        self.time_base.wf()
    }

    pub fn new(time_base: Rational, pixel_format: PixelFormat) -> (r: DecoderState)
        requires
            time_base.wf(),
        ensures
            r.seek_serial == 0,
            r.sent_eof == false,
            r.last_frame_time is None,
            r.time_base == time_base,
            r.pixel_format == pixel_format,
            r.wf(),
    {
        DecoderState {
            seek_serial: 0,
            sent_eof: false,
            last_frame_time: None,
            time_base,
            pixel_format,
        }
    }

    /// The state after an epoch command: the new epoch is adopted, the
    /// end-of-stream mark is cleared and the frame timing restarts.
    pub open spec fn spec_on_new_serial(self, serial: u64) -> DecoderState {
        DecoderState { seek_serial: serial, sent_eof: false, last_frame_time: None, ..self }
    }

    /// Adopts a new epoch received on the command channel. The caller
    /// must also flush the codec backend and clear the frame queue, so
    /// no buffered output of the old epoch survives.
    pub fn on_new_serial(&mut self, serial: u64)
        ensures
            *final(self) == old(self).spec_on_new_serial(serial),
    {
        self.seek_serial = serial;
        self.sent_eof = false;
        self.last_frame_time = None;
    }

    /// Whether a packet envelope may be fed to the codec backend: only
    /// packets of the decoder's own epoch are; stale ones are dropped
    /// before submission, so the backend never decodes data of a
    /// different time region.
    pub fn should_submit(&self, packet: &PacketData) -> (r: bool)
        ensures
            r == (packet.serial == self.seek_serial),
    {
        packet.serial == self.seek_serial
    }

    /// Records that the end-of-stream sentinel was taken from the
    /// packet queue and forwarded to the codec backend.
    pub fn on_eos_packet(&mut self)
        ensures
            *final(self) == (DecoderState { sent_eof: true, ..*old(self) }),
    {
        self.sent_eof = true;
    }

    /// Whether a decoded timestamp can be timed in the current epoch:
    /// its millisecond value is representable and not before the
    /// previous frame of the epoch.
    pub open spec fn timestamp_ok(self, pts: Option<i64>) -> bool {
        let ft = spec_frame_time_ms(spec_pts(pts), self.time_base);
        &&& 0 <= ft <= i64::MAX
        &&& match self.last_frame_time {
            Some(p) => p <= ft,
            None => true,
        }
    }

    /// The millisecond presentation time a decoded frame is tagged
    /// with.
    pub open spec fn spec_frame_time(self, pts: Option<i64>) -> int {
        spec_frame_time_ms(spec_pts(pts), self.time_base)
    }

    /// The delta to the previous emitted frame of the epoch: 0 for the
    /// first frame of an epoch.
    pub open spec fn spec_delta(self, pts: Option<i64>) -> int {
        match self.last_frame_time {
            Some(p) => self.spec_frame_time(pts) - p,
            None => 0,
        }
    }

    /// Times one decoded frame: returns its millisecond presentation
    /// time and the delta to the previous frame of the epoch, and
    /// remembers the new time. `None` when the timestamp cannot be
    /// timed (not representable in milliseconds, or before the
    /// previous frame of the epoch); the state is then unchanged and
    /// the caller treats the frame as fatal.
    pub fn on_decoded_frame(&mut self, pts: Option<i64>) -> (r: Option<(u64, u64)>)
        requires
            old(self).wf(),
        ensures
            final(self).wf(),
            r is Some <==> old(self).timestamp_ok(pts),
            match r {
                Some((ft, diff)) => {
                    &&& ft == old(self).spec_frame_time(pts)
                    &&& diff == old(self).spec_delta(pts)
                    &&& *final(self) == (DecoderState {
                        last_frame_time: Some(ft),
                        ..*old(self)
                    })
                },
                None => *final(self) == *old(self),
            },
    {
        let ts: i64 = match pts {
            Some(t) => t,
            None => 0,
        };
        let scaled: Option<i64> = crate::rational::rescale(ts, self.time_base, Rational::millis());
        match scaled {
            Some(v) => {
                if v >= 0 {
                    let ft: u64 = v as u64;
                    match self.last_frame_time {
                        Some(p) => {
                            if ft >= p {
                                let diff: u64 = ft - p;
                                self.last_frame_time = Some(ft);
                                Some((ft, diff))
                            } else {
                                None
                            }
                        },
                        None => {
                            self.last_frame_time = Some(ft);
                            Some((ft, 0))
                        },
                    }
                } else {
                    None
                }
            },
            None => None,
        }
    }
}

/// The first frame timed after an epoch change carries a zero delta:
/// an epoch command clears the previous-frame time, and a frame timed
/// with no previous frame gets delta 0.
pub proof fn lemma_first_frame_of_epoch_delta_zero(d: DecoderState, serial: u64, pts: Option<
    i64,
>)
    ensures
        d.spec_on_new_serial(serial).spec_delta(pts) == 0,
{
}

} // verus!
