//! The pipeline, composed: demuxer, decoder and presenter wired by the
//! two bounded queues and the three command channels.
//!
//! This is the core's reference composition, driven step by step. The
//! work the codec backend, the container and the display do is not
//! here: the driver of a `Pipeline` performs it and hands the outcome
//! to the next step as plain values (a demuxed packet, a decoded
//! frame's timestamp, an input event, a clock reading). Every step
//! preserves the pipeline invariant `wf`, which carries the epoch
//! protocol: epochs only grow along every component's time axis, no
//! envelope holds an epoch newer than its producer's, the frame queue
//! always holds a contiguous window of the emission log, and the
//! emission log is well formed epoch by epoch — frame times never
//! decrease within an epoch, every epoch opens with delta 0, and each
//! delta is the difference to the previous frame of its epoch.

use vstd::prelude::*;

use crate::codec::ReceiveStatus;
use crate::decoder::DecoderState;
use crate::demuxer::DemuxerState;
use crate::file_decoder::FileDecoderError;
use crate::file_decoder::{FRAME_QUEUE_SIZE, PACKET_QUEUE_SIZE};
use crate::frame::{Frame, PacketData, VideoData};
use crate::pixel::PixelFormat;
use crate::presenter::{PresenterState, SEEK_STEP_MS};
use crate::queue::BoundedQueue;
use crate::rational::Rational;

verus! {

/// One emitted frame, as the logs record it: its epoch, its
/// millisecond time and its delta to the previous frame of the epoch.
#[derive(Clone, Copy, Debug, PartialEq, Eq, Structural)]
pub struct FrameRec {
    pub serial: u64,
    pub frame_time: u64,
    pub diff: u64,
}

/// One drawn frame: the record of the frame and the instant the
/// presenter drew it at.
#[derive(Clone, Copy, Debug, PartialEq, Eq, Structural)]
pub struct DrawnRec {
    pub serial: u64,
    pub frame_time: u64,
    pub diff: u64,
    pub at_ms: u64,
}

/// The plain record of a frame envelope.
pub open spec fn rec_of(vd: VideoData) -> FrameRec {
    FrameRec { serial: vd.serial, frame_time: vd.frame_time, diff: vd.diff_to_prev_frame }
}

/// Epochs never decrease along the emission log.
pub open spec fn log_sorted(log: Seq<FrameRec>) -> bool {
    forall|i: int| #![trigger log[i]] 0 < i < log.len() ==> log[i - 1].serial <= log[i].serial
}

/// Within an epoch, frame times never decrease and each delta is the
/// difference to the previous frame.
pub open spec fn log_epoch_steps(log: Seq<FrameRec>) -> bool {
    forall|i: int| #![trigger log[i]]
        0 < i < log.len() && log[i].serial == log[i - 1].serial ==> (log[i - 1].frame_time
            <= log[i].frame_time && log[i].diff == log[i].frame_time - log[i - 1].frame_time)
}

/// The first frame of every epoch carries delta 0.
pub open spec fn log_epoch_first(log: Seq<FrameRec>) -> bool {
    forall|i: int| #![trigger log[i]]
        0 <= i < log.len() && (i == 0 || log[i].serial != log[i - 1].serial) ==> log[i].diff == 0
}

/// The emission log's well-formedness: what the decoder guarantees of
/// everything it ever hands to the frame queue.
pub open spec fn log_wf(log: Seq<FrameRec>) -> bool {
    log_sorted(log) && log_epoch_steps(log) && log_epoch_first(log)
}

/// A command channel as the controller leaves it: pending epochs are
/// strictly increasing, all newer than the worker's current epoch and
/// none newer than the controller's.
pub open spec fn channel_ok(ch: Seq<u64>, worker: u64, controller: u64) -> bool {
    &&& forall|i: int| #![trigger ch[i]] 0 <= i < ch.len() ==> worker < ch[i] <= controller
    &&& forall|i: int, j: int| #![trigger ch[i], ch[j]] 0 <= i < j < ch.len() ==> ch[i] < ch[j]
}

/// Epochs never decrease between any two positions of the log.
pub proof fn lemma_log_serial_monotone(log: Seq<FrameRec>, i: int, j: int)
    requires
        log_sorted(log),
        0 <= i <= j < log.len(),
    ensures
        log[i].serial <= log[j].serial,
    decreases j - i,
{
    if i < j {
        lemma_log_serial_monotone(log, i, j - 1);
    }
}

/// Any two frames of the same epoch, in emission order, have
/// non-decreasing frame times: the later one is at least as late.
pub proof fn lemma_same_epoch_times_monotone(log: Seq<FrameRec>, i: int, j: int)
    requires
        log_wf(log),
        0 <= i <= j < log.len(),
        log[i].serial == log[j].serial,
    ensures
        log[i].frame_time <= log[j].frame_time,
    decreases j - i,
{
    if i < j {
        lemma_log_serial_monotone(log, i, j - 1);
        lemma_log_serial_monotone(log, j - 1, j);
        lemma_same_epoch_times_monotone(log, i, j - 1);
    }
}

/// The sum of the deltas of the log entries at positions `[i, j)`.
pub open spec fn sum_deltas(log: Seq<FrameRec>, i: int, j: int) -> int
    decreases j - i,
{
    if i >= j {
        0
    } else {
        log[i].diff + sum_deltas(log, i + 1, j)
    }
}

proof fn lemma_sum_deltas_snoc(log: Seq<FrameRec>, i: int, j: int)
    requires
        0 <= i <= j < log.len(),
    ensures
        sum_deltas(log, i, j + 1) == sum_deltas(log, i, j) + log[j].diff,
    decreases j - i,
{
    if i == j {
        assert(sum_deltas(log, i, i + 1) == log[i].diff + sum_deltas(log, i + 1, i + 1));
    } else {
        lemma_sum_deltas_snoc(log, i + 1, j);
        assert(sum_deltas(log, i, j + 1) == log[i].diff + sum_deltas(log, i + 1, j + 1));
        assert(sum_deltas(log, i, j) == log[i].diff + sum_deltas(log, i + 1, j));
    }
}

/// Within an epoch the deltas telescope: summed from the epoch's first
/// frame `i` through any later frame `j` of the same epoch, they equal
/// `log[j].frame_time - log[i].frame_time`.
pub proof fn lemma_epoch_delta_sum(log: Seq<FrameRec>, i: int, j: int)
    requires
        log_wf(log),
        0 <= i <= j < log.len(),
        log[i].serial == log[j].serial,
        i == 0 || log[i - 1].serial != log[i].serial,
    ensures
        sum_deltas(log, i, j + 1) == log[j].frame_time - log[i].frame_time,
    decreases j - i,
{
    if i == j {
        assert(sum_deltas(log, i, i + 1) == log[i].diff + sum_deltas(log, i + 1, i + 1));
        assert(log[i].diff == 0);
    } else {
        lemma_log_serial_monotone(log, i, j - 1);
        lemma_log_serial_monotone(log, j - 1, j);
        lemma_epoch_delta_sum(log, i, j - 1);
        lemma_sum_deltas_snoc(log, i, j);
    }
}

/// What one decoder-side packet step found and did.
pub enum PacketStep {
    /// The end-of-stream sentinel was taken; the caller sends
    /// end-of-stream to the codec backend.
    Eos,
    /// A packet of the current epoch was taken; the caller submits it
    /// to the codec backend.
    Submit(PacketData),
    /// A stale packet was taken and dropped before submission.
    Stale,
}

/// What one decoder-side receive step did with the backend's answer.
#[derive(Clone, Copy, Debug, PartialEq, Eq, Structural)]
pub enum ReceiveStep {
    /// The backend needs more input.
    Waiting,
    /// End of stream: the sentinel was put on the frame queue and the
    /// decoder stage is finished.
    Finished,
    /// A frame was timed and enqueued, with this time and delta.
    Emitted(u64, u64),
    /// The frame's timestamp cannot be timed; fatal to the stage.
    BadTimestamp,
    /// The backend failed with this error number; fatal to the stage.
    Fatal(i32),
}

/// What one presenter step found and did.
#[derive(Clone, Copy, Debug, PartialEq, Eq, Structural)]
pub enum PresentStep {
    /// The end-of-stream sentinel arrived; the presenter exits.
    Eos,
    /// A stale frame was dropped: no draw, no sleep.
    Stale,
    /// A frame of the current epoch was drawn at this instant.
    Drawn(u64),
    /// The pacing anchor cannot advance without overflowing; fatal.
    Overflow,
}

/// Where a seek lands when it becomes the new reference time: a target
/// before the start of the stream reads as its start.
pub open spec fn clamp_to_u64(t: int) -> int {
    if t >= 0 {
        t
    } else {
        0
    }
}

/// The composed pipeline, stepped by a driver.
pub struct Pipeline {
    pub demuxer: DemuxerState,
    pub decoder: DecoderState,
    pub presenter: PresenterState,
    pub packet_queue: BoundedQueue<Option<PacketData>>,
    pub video_queue: BoundedQueue<Option<VideoData>>,
    /// Epoch commands pending for the demuxer, oldest first.
    pub demuxer_serial_ch: Vec<u64>,
    /// Seek targets pending for the demuxer, oldest first.
    pub demuxer_seek_ch: Vec<i64>,
    /// Epoch commands pending for the decoder, oldest first.
    pub decoder_serial_ch: Vec<u64>,
    /// Every frame envelope the decoder ever enqueued, in order.
    pub emitted: Vec<FrameRec>,
    /// Every frame the presenter drew, in order.
    pub drawn: Vec<DrawnRec>,
    /// How many emitted frames have left the frame queue, drawn,
    /// dropped or cleared.
    pub frames_taken: usize,
    /// The shared lifetime flag: cleared by `stop`.
    pub running: bool,
    pub demuxer_done: bool,
    pub decoder_done: bool,
    pub presenter_done: bool,
    /// A stage hit a fatal condition.
    pub failed: bool,
}

impl Pipeline {
    /// The frame queue holds exactly the emitted frames that have not
    /// yet been taken, in emission order, with at most the
    /// end-of-stream sentinel behind them.
    pub open spec fn window_ok(self) -> bool {
        let log = self.emitted@;
        let k = self.frames_taken as int;
        let vq = self.video_queue@;
        let n = log.len() - k;
        &&& k <= log.len()
        &&& (vq.len() == n || vq.len() == n + 1)
        &&& (forall|i: int| #![trigger vq[i]]
            0 <= i < n ==> (match vq[i] {
                Some(vd) => rec_of(vd) == log[k + i],
                None => false,
            }))
        &&& (vq.len() == n + 1 ==> vq[n] is None)
        &&& (vq.len() == n + 1 ==> self.decoder_done)
    }

    /// The decoder's previous-frame time matches the tail of the
    /// emission log: it is the time of the log's last entry when that
    /// entry belongs to the decoder's epoch, and absent when the
    /// decoder has emitted nothing in its epoch yet.
    pub open spec fn decoder_log_ok(self) -> bool {
        let log = self.emitted@;
        &&& (log.len() > 0 ==> log.last().serial <= self.decoder.seek_serial)
        &&& match self.decoder.last_frame_time {
            Some(t) => log.len() > 0 && log.last().serial == self.decoder.seek_serial
                && log.last().frame_time == t,
            None => log.len() == 0 || log.last().serial < self.decoder.seek_serial,
        }
    }

    /// What the drawn log guarantees: every drawn frame belongs to an
    /// epoch the controller had issued, epochs never regress along it,
    /// frame times never decrease within an epoch, and the newest
    /// drawn frame stays behind the decoder's progress: the emission
    /// log's tail, the decoder's previous-frame time and every
    /// not-yet-taken frame of its epoch are at least as late.
    pub open spec fn drawn_ok(self) -> bool {
        let d = self.drawn@;
        let log = self.emitted@;
        let k = self.frames_taken as int;
        &&& (forall|i: int| #![trigger d[i]]
            0 <= i < d.len() ==> d[i].serial <= self.presenter.seek_serial)
        &&& (forall|i: int| #![trigger d[i]] 0 < i < d.len() ==> d[i - 1].serial <= d[i].serial)
        &&& (forall|i: int| #![trigger d[i]]
            0 < i < d.len() && d[i].serial == d[i - 1].serial ==> d[i - 1].frame_time
                <= d[i].frame_time)
        &&& (d.len() > 0 ==> log.len() > 0 && d.last().serial <= log.last().serial)
        &&& (d.len() > 0 && d.last().serial == self.presenter.seek_serial ==> (forall|i: int|
            #![trigger log[i]]
            k <= i < log.len() && log[i].serial == d.last().serial ==> d.last().frame_time
                <= log[i].frame_time))
        &&& (d.len() > 0 && d.last().serial == self.decoder.seek_serial ==> (
        match self.decoder.last_frame_time {
            Some(t) => d.last().frame_time <= t,
            None => true,
        }))
    }

    /// The pipeline invariant.
    pub open spec fn wf(self) -> bool {
        &&& self.packet_queue.wf() && self.packet_queue.cap() == PACKET_QUEUE_SIZE
        &&& self.video_queue.wf() && self.video_queue.cap() == FRAME_QUEUE_SIZE
        &&& self.demuxer.wf() && self.decoder.wf()
        &&& self.demuxer.seek_serial <= self.presenter.seek_serial
        &&& self.decoder.seek_serial <= self.presenter.seek_serial
        &&& channel_ok(self.demuxer_serial_ch@, self.demuxer.seek_serial, self.presenter.seek_serial)
        &&& channel_ok(self.decoder_serial_ch@, self.decoder.seek_serial, self.presenter.seek_serial)
        &&& self.demuxer_serial_ch@.len() == self.demuxer_seek_ch@.len()
        &&& (forall|i: int| #![trigger self.packet_queue@[i]]
            0 <= i < self.packet_queue@.len() ==> (match self.packet_queue@[i] {
                Some(pd) => pd.serial <= self.demuxer.seek_serial,
                None => true,
            }))
        &&& self.window_ok()
        &&& log_wf(self.emitted@)
        &&& self.decoder_log_ok()
        &&& self.drawn_ok()
    }

    /// A fresh pipeline at instant `now_ms`: everything at epoch 0,
    /// both queues empty at their configured capacities.
    pub fn new(now_ms: u64, stream_index: usize, time_base: Rational, pixel_format: PixelFormat)
        -> (r: Pipeline)
        requires
            time_base.wf(),
        ensures
            r.wf(),
            r.demuxer.seek_serial == 0 && r.demuxer.stream_index == stream_index
                && r.demuxer.time_base == time_base,
            r.decoder.seek_serial == 0 && !r.decoder.sent_eof && r.decoder.last_frame_time
                is None && r.decoder.time_base == time_base && r.decoder.pixel_format
                == pixel_format,
            r.presenter.seek_serial == 0 && !r.presenter.paused && !r.presenter.need_update
                && r.presenter.presentation_time_ms == now_ms && r.presenter.last_pts == 0,
            r.packet_queue@.len() == 0 && r.video_queue@.len() == 0,
            r.emitted@.len() == 0 && r.drawn@.len() == 0 && r.frames_taken == 0,
            r.running && !r.demuxer_done && !r.decoder_done && !r.presenter_done && !r.failed,
            r.demuxer_serial_ch@.len() == 0 && r.demuxer_seek_ch@.len() == 0
                && r.decoder_serial_ch@.len() == 0,
    {
        Pipeline {
            demuxer: DemuxerState::new(stream_index, time_base),
            decoder: DecoderState::new(time_base, pixel_format),
            presenter: PresenterState::new(now_ms),
            packet_queue: BoundedQueue::new_with_capacity(PACKET_QUEUE_SIZE),
            video_queue: BoundedQueue::new_with_capacity(FRAME_QUEUE_SIZE),
            demuxer_serial_ch: Vec::new(),
            demuxer_seek_ch: Vec::new(),
            decoder_serial_ch: Vec::new(),
            emitted: Vec::new(),
            drawn: Vec::new(),
            frames_taken: 0,
            running: true,
            demuxer_done: false,
            decoder_done: false,
            presenter_done: false,
            failed: false,
        }
    }

    /// The demuxer's side of the pipeline is untouched.
    pub open spec fn demux_side_same(a: Pipeline, b: Pipeline) -> bool {
        &&& b.demuxer == a.demuxer
        &&& b.packet_queue@ == a.packet_queue@
        &&& b.packet_queue.cap() == a.packet_queue.cap()
        &&& b.demuxer_serial_ch@ == a.demuxer_serial_ch@
        &&& b.demuxer_seek_ch@ == a.demuxer_seek_ch@
        &&& b.demuxer_done == a.demuxer_done
    }

    /// The decoder's side of the pipeline is untouched.
    pub open spec fn decode_side_same(a: Pipeline, b: Pipeline) -> bool {
        &&& b.decoder == a.decoder
        &&& b.video_queue@ == a.video_queue@
        &&& b.video_queue.cap() == a.video_queue.cap()
        &&& b.decoder_serial_ch@ == a.decoder_serial_ch@
        &&& b.emitted@ == a.emitted@
        &&& b.frames_taken == a.frames_taken
        &&& b.decoder_done == a.decoder_done
    }

    /// The presenter's side of the pipeline is untouched.
    pub open spec fn present_side_same(a: Pipeline, b: Pipeline) -> bool {
        &&& b.presenter == a.presenter
        &&& b.drawn@ == a.drawn@
        &&& b.presenter_done == a.presenter_done
    }

    /// The presenter issues a seek one step forward or backward from
    /// the last drawn frame's time: the bumped epoch goes to the
    /// decoder, then to the demuxer, then the target to the demuxer.
    /// Returns the new epoch.
    pub fn step_seek(&mut self, forward: bool) -> (r: u64)
        requires
            old(self).wf(),
            old(self).presenter.seek_serial < u64::MAX,
            old(self).presenter.last_pts + SEEK_STEP_MS <= i64::MAX,
        ensures
            final(self).wf(),
            r == old(self).presenter.seek_serial + 1,
            final(self).presenter.seek_serial == r,
            final(self).presenter.need_update,
            final(self).presenter.last_pts == clamp_to_u64(
                old(self).presenter.last_pts + (if forward {
                    SEEK_STEP_MS as int
                } else {
                    -(SEEK_STEP_MS as int)
                }),
            ),
            final(self).presenter.paused == old(self).presenter.paused,
            final(self).presenter.presentation_time_ms == old(self).presenter.presentation_time_ms,
            final(self).decoder_serial_ch@ == old(self).decoder_serial_ch@.push(r),
            final(self).demuxer_serial_ch@ == old(self).demuxer_serial_ch@.push(r),
            final(self).demuxer_seek_ch@.len() == old(self).demuxer_seek_ch@.len() + 1,
            final(self).demuxer_seek_ch@.last() == (old(self).presenter.last_pts + (if forward {
                SEEK_STEP_MS as int
            } else {
                -(SEEK_STEP_MS as int)
            })) as i64,
            final(self).demuxer == old(self).demuxer,
            final(self).packet_queue@ == old(self).packet_queue@,
            final(self).decoder == old(self).decoder,
            final(self).video_queue@ == old(self).video_queue@,
            final(self).emitted@ == old(self).emitted@,
            final(self).drawn@ == old(self).drawn@,
            final(self).frames_taken == old(self).frames_taken,
            final(self).running == old(self).running,
            final(self).demuxer_done == old(self).demuxer_done,
            final(self).decoder_done == old(self).decoder_done,
            final(self).presenter_done == old(self).presenter_done,
            final(self).failed == old(self).failed,
    {
        let new_serial: u64 = self.presenter.seek_serial + 1;
        let target: i64 = self.presenter.seek_target(forward);
        self.decoder_serial_ch.push(new_serial);
        self.demuxer_serial_ch.push(new_serial);
        self.demuxer_seek_ch.push(target);
        self.presenter.on_seek_issued(target, new_serial);
        new_serial
    }

    /// The controller releases the lifetime flag; the workers observe
    /// it at their next top-of-loop check and exit.
    pub fn step_stop(&mut self)
        requires
            old(self).wf(),
        ensures
            final(self).wf(),
            *final(self) == (Pipeline { running: false, ..*old(self) }),
    {
        self.running = false;
    }

    /// The demuxer's top-of-loop lifetime check: with the flag gone it
    /// exits without further enqueues.
    pub fn step_demuxer_check_running(&mut self)
        requires
            old(self).wf(),
        ensures
            final(self).wf(),
            *final(self) == (Pipeline {
                demuxer_done: old(self).demuxer_done || !old(self).running,
                ..*old(self)
            }),
    {
        if !self.running {
            self.demuxer_done = true;
        }
    }

    /// The decoder's lifetime check: with the flag gone it exits.
    pub fn step_decoder_check_running(&mut self)
        requires
            old(self).wf(),
        ensures
            final(self).wf(),
            *final(self) == (Pipeline {
                decoder_done: old(self).decoder_done || !old(self).running,
                ..*old(self)
            }),
    {
        if !self.running {
            self.decoder_done = true;
        }
    }

    /// The presenter toggles pause; entering unpaused re-anchors the
    /// presentation clock at `now_ms`.
    pub fn step_presenter_pause(&mut self, now_ms: u64)
        requires
            old(self).wf(),
        ensures
            final(self).wf(),
            *final(self) == (Pipeline {
                presenter: old(self).presenter.spec_toggle_pause(now_ms),
                ..*old(self)
            }),
    {
        self.presenter.on_pause_toggle(now_ms);
    }

    /// The presenter quits: its loop ends.
    pub fn step_presenter_quit(&mut self)
        requires
            old(self).wf(),
        ensures
            final(self).wf(),
            *final(self) == (Pipeline { presenter_done: true, ..*old(self) }),
    {
        self.presenter_done = true;
    }

    /// The demuxer's top-of-loop poll of its command channels, the
    /// epoch channel before the seek channel. When a seek was pending,
    /// the rescaled backend target is returned and the packet queue is
    /// cleared: no pre-seek packet can reach the decoder. The caller
    /// performs the backend seek itself. An unrepresentable target is
    /// a seek failure, fatal to the demuxer.
    #[verifier::rlimit(60)]
    pub fn step_demuxer_commands(&mut self) -> (r: Result<Option<i64>, FileDecoderError>)
        requires
            old(self).wf(),
            !old(self).demuxer_done,
        ensures
            final(self).wf(),
            Pipeline::decode_side_same(*old(self), *final(self)),
            Pipeline::present_side_same(*old(self), *final(self)),
            final(self).running == old(self).running,
            final(self).failed == old(self).failed,
            final(self).demuxer.stream_index == old(self).demuxer.stream_index,
            final(self).demuxer.time_base == old(self).demuxer.time_base,
            ({
                let had = old(self).demuxer_serial_ch@.len() > 0;
                &&& final(self).demuxer.seek_serial == (if had {
                    old(self).demuxer_serial_ch@[0]
                } else {
                    old(self).demuxer.seek_serial
                })
                &&& final(self).demuxer_serial_ch@ == (if had {
                    old(self).demuxer_serial_ch@.drop_first()
                } else {
                    old(self).demuxer_serial_ch@
                })
                &&& final(self).demuxer_seek_ch@ == (if had {
                    old(self).demuxer_seek_ch@.drop_first()
                } else {
                    old(self).demuxer_seek_ch@
                })
            }),
            match r {
                Ok(opt) => match opt {
                    Some(t) => {
                        &&& old(self).demuxer_seek_ch@.len() > 0
                        &&& t == (old(self).demuxer.spec_seek_target(
                            old(self).demuxer_seek_ch@[0] as int,
                        )) as i64
                        &&& final(self).packet_queue@.len() == 0
                        &&& !final(self).demuxer_done
                    },
                    None => {
                        &&& old(self).demuxer_seek_ch@.len() == 0
                        &&& final(self).packet_queue@ == old(self).packet_queue@
                        &&& !final(self).demuxer_done
                    },
                },
                Err(_) => {
                    &&& old(self).demuxer_seek_ch@.len() > 0
                    &&& !(i64::MIN <= old(self).demuxer.spec_seek_target(
                        old(self).demuxer_seek_ch@[0] as int,
                    ) <= i64::MAX)
                    &&& final(self).packet_queue@ == old(self).packet_queue@
                    &&& final(self).demuxer_done
                },
            },
    {
        let serial_opt: Option<u64> = if self.demuxer_serial_ch.len() > 0 {
            Some(self.demuxer_serial_ch.remove(0))
        } else {
            None
        };
        let seek_opt: Option<i64> = if self.demuxer_seek_ch.len() > 0 {
            Some(self.demuxer_seek_ch.remove(0))
        } else {
            None
        };
        let res = self.demuxer.on_commands(serial_opt, seek_opt);
        match &res {
            Ok(Some(_)) => {
                self.packet_queue.clear();
            },
            Ok(None) => {
            },
            Err(_) => {
                self.demuxer_done = true;
            },
        }
        proof {
            let pre = *old(self);
            if pre.demuxer_serial_ch@.len() > 0 {
                assert(self.demuxer_serial_ch@ =~= pre.demuxer_serial_ch@.drop_first());
                assert(self.demuxer_seek_ch@ =~= pre.demuxer_seek_ch@.drop_first());
                assert(pre.demuxer.seek_serial < pre.demuxer_serial_ch@[0]);
                assert forall|i: int| #![trigger self.demuxer_serial_ch@[i]]
                    0 <= i < self.demuxer_serial_ch@.len() implies self.demuxer.seek_serial
                    < self.demuxer_serial_ch@[i] <= self.presenter.seek_serial by {
                    assert(self.demuxer_serial_ch@[i] == pre.demuxer_serial_ch@[i + 1]);
                    assert(pre.demuxer_serial_ch@[0] < pre.demuxer_serial_ch@[i + 1]);
                }
            } else {
                assert(self.demuxer_serial_ch@ =~= pre.demuxer_serial_ch@);
                assert(self.demuxer_seek_ch@ =~= pre.demuxer_seek_ch@);
            }
        }
        res
    }

    /// The demuxer read one packet from the container: a packet of the
    /// selected stream is wrapped with the current epoch and enqueued
    /// (the caller parks first when the queue is full — that is the
    /// backpressure); any other packet is dropped. Returns whether the
    /// packet was enqueued.
    pub fn step_demuxer_packet(&mut self, stream_index: usize, pts: Option<i64>, data: Vec<u8>)
        -> (r: bool)
        requires
            old(self).wf(),
            !old(self).demuxer_done,
            old(self).packet_queue@.len() < PACKET_QUEUE_SIZE,
        ensures
            final(self).wf(),
            Pipeline::decode_side_same(*old(self), *final(self)),
            Pipeline::present_side_same(*old(self), *final(self)),
            final(self).running == old(self).running,
            final(self).failed == old(self).failed,
            final(self).demuxer == old(self).demuxer,
            final(self).demuxer_serial_ch@ == old(self).demuxer_serial_ch@,
            final(self).demuxer_seek_ch@ == old(self).demuxer_seek_ch@,
            !final(self).demuxer_done,
            r == (stream_index == old(self).demuxer.stream_index),
            r ==> final(self).packet_queue@.len() == old(self).packet_queue@.len() + 1
                && (match final(self).packet_queue@.last() {
                Some(pd) => {
                    &&& pd.serial == old(self).demuxer.seek_serial
                    &&& pd.stream_index == stream_index
                    &&& pd.pts == pts
                },
                None => false,
            }) && final(self).packet_queue@.drop_last() == old(self).packet_queue@,
            !r ==> final(self).packet_queue@ == old(self).packet_queue@,
    {
        match self.demuxer.on_packet(stream_index, pts, data) {
            Some(pd) => {
                self.packet_queue.add(Some(pd));
                true
            },
            None => false,
        }
    }

    /// The container is exhausted: the demuxer enqueues the single
    /// end-of-stream sentinel and exits.
    pub fn step_demuxer_end(&mut self)
        requires
            old(self).wf(),
            !old(self).demuxer_done,
            old(self).packet_queue@.len() < PACKET_QUEUE_SIZE,
        ensures
            final(self).wf(),
            Pipeline::decode_side_same(*old(self), *final(self)),
            Pipeline::present_side_same(*old(self), *final(self)),
            final(self).running == old(self).running,
            final(self).failed == old(self).failed,
            final(self).demuxer == old(self).demuxer,
            final(self).demuxer_serial_ch@ == old(self).demuxer_serial_ch@,
            final(self).demuxer_seek_ch@ == old(self).demuxer_seek_ch@,
            final(self).demuxer_done,
            final(self).packet_queue@ == old(self).packet_queue@.push(None),
    {
        self.packet_queue.add(None);
        self.demuxer_done = true;
    }

    /// The decoder's top-of-loop poll of its epoch channel: a pending
    /// epoch is adopted, the end-of-stream mark is cleared, the frame
    /// queue is cleared and the frame timing restarts. The caller also
    /// flushes the codec backend, discarding its buffered output.
    #[verifier::rlimit(60)]
    pub fn step_decoder_commands(&mut self)
        requires
            old(self).wf(),
            !old(self).decoder_done,
        ensures
            final(self).wf(),
            Pipeline::demux_side_same(*old(self), *final(self)),
            Pipeline::present_side_same(*old(self), *final(self)),
            final(self).running == old(self).running,
            final(self).failed == old(self).failed,
            final(self).emitted@ == old(self).emitted@,
            !final(self).decoder_done,
            ({
                let had = old(self).decoder_serial_ch@.len() > 0;
                if had {
                    &&& final(self).decoder == old(self).decoder.spec_on_new_serial(
                        old(self).decoder_serial_ch@[0],
                    )
                    &&& final(self).decoder_serial_ch@ == old(self).decoder_serial_ch@.drop_first()
                    &&& final(self).video_queue@.len() == 0
                    &&& final(self).frames_taken == old(self).emitted@.len()
                } else {
                    Pipeline::decode_side_same(*old(self), *final(self))
                }
            }),
    {
        if self.decoder_serial_ch.len() > 0 {
            let s: u64 = self.decoder_serial_ch.remove(0);
            self.decoder.on_new_serial(s);
            self.video_queue.clear();
            self.frames_taken = self.emitted.len();
            proof {
                let pre = *old(self);
                assert(self.decoder_serial_ch@ =~= pre.decoder_serial_ch@.drop_first());
                assert(pre.decoder.seek_serial < pre.decoder_serial_ch@[0]);
                assert forall|i: int| #![trigger self.decoder_serial_ch@[i]]
                    0 <= i < self.decoder_serial_ch@.len() implies self.decoder.seek_serial
                    < self.decoder_serial_ch@[i] <= self.presenter.seek_serial by {
                    assert(self.decoder_serial_ch@[i] == pre.decoder_serial_ch@[i + 1]);
                    assert(pre.decoder_serial_ch@[0] < pre.decoder_serial_ch@[i + 1]);
                }
                if pre.emitted@.len() > 0 {
                    assert(pre.emitted@.last().serial < self.decoder.seek_serial);
                }
            }
        }
    }

    /// The decoder takes one item from the packet queue (the caller
    /// parks first when it is empty): the end-of-stream sentinel is
    /// recorded and forwarded to the codec backend by the caller; a
    /// packet of the current epoch is handed back for submission; a
    /// stale packet is dropped before submission.
    pub fn step_decoder_packet(&mut self) -> (r: PacketStep)
        requires
            old(self).wf(),
            !old(self).decoder_done,
            !old(self).decoder.sent_eof,
            old(self).packet_queue@.len() > 0,
        ensures
            final(self).wf(),
            Pipeline::present_side_same(*old(self), *final(self)),
            final(self).running == old(self).running,
            final(self).failed == old(self).failed,
            final(self).demuxer == old(self).demuxer,
            final(self).demuxer_serial_ch@ == old(self).demuxer_serial_ch@,
            final(self).demuxer_seek_ch@ == old(self).demuxer_seek_ch@,
            final(self).demuxer_done == old(self).demuxer_done,
            final(self).packet_queue@ == old(self).packet_queue@.drop_first(),
            final(self).video_queue@ == old(self).video_queue@,
            final(self).decoder_serial_ch@ == old(self).decoder_serial_ch@,
            final(self).emitted@ == old(self).emitted@,
            final(self).frames_taken == old(self).frames_taken,
            !final(self).decoder_done,
            match r {
                PacketStep::Eos => old(self).packet_queue@[0] is None && final(self).decoder == (
                DecoderState { sent_eof: true, ..old(self).decoder }),
                PacketStep::Submit(pd) => old(self).packet_queue@[0] == Some(pd) && pd.serial
                    == old(self).decoder.seek_serial && final(self).decoder == old(self).decoder,
                PacketStep::Stale => (match old(self).packet_queue@[0] {
                    Some(pd) => pd.serial != old(self).decoder.seek_serial,
                    None => false,
                }) && final(self).decoder == old(self).decoder,
            },
    {
        let item = self.packet_queue.take();
        match item {
            None => {
                self.decoder.on_eos_packet();
                PacketStep::Eos
            },
            Some(pd) => {
                if self.decoder.should_submit(&pd) {
                    PacketStep::Submit(pd)
                } else {
                    PacketStep::Stale
                }
            },
        }
    }

    /// The decoder asked the codec backend for one frame and got
    /// `status`; the caller parks first when the frame queue is full.
    /// A delivered frame is timed and enqueued under the current epoch
    /// and appended to the emission log; end of stream enqueues the
    /// sentinel and finishes the stage; a frame whose timestamp cannot
    /// be timed, or any other backend error, is fatal and ends the
    /// stage with the pipeline marked failed.
    #[verifier::rlimit(60)]
    pub fn step_decoder_receive(&mut self, status: ReceiveStatus) -> (r: ReceiveStep)
        requires
            old(self).wf(),
            !old(self).decoder_done,
            old(self).video_queue@.len() < FRAME_QUEUE_SIZE,
        ensures
            final(self).wf(),
            Pipeline::demux_side_same(*old(self), *final(self)),
            Pipeline::present_side_same(*old(self), *final(self)),
            final(self).running == old(self).running,
            final(self).decoder_serial_ch@ == old(self).decoder_serial_ch@,
            final(self).frames_taken == old(self).frames_taken,
            match status {
                ReceiveStatus::Eagain => r == ReceiveStep::Waiting && Pipeline::decode_side_same(
                    *old(self),
                    *final(self),
                ) && final(self).failed == old(self).failed,
                ReceiveStatus::Eof => {
                    &&& r == ReceiveStep::Finished
                    &&& final(self).video_queue@ == old(self).video_queue@.push(None)
                    &&& final(self).decoder_done
                    &&& final(self).emitted@ == old(self).emitted@
                    &&& final(self).decoder == old(self).decoder
                    &&& final(self).failed == old(self).failed
                },
                ReceiveStatus::Frame { pts } => {
                    if old(self).decoder.timestamp_ok(pts) {
                        let ft = old(self).decoder.spec_frame_time(pts) as u64;
                        let d = old(self).decoder.spec_delta(pts) as u64;
                        let rec = FrameRec {
                            serial: old(self).decoder.seek_serial,
                            frame_time: ft,
                            diff: d,
                        };
                        &&& r == ReceiveStep::Emitted(ft, d)
                        &&& final(self).emitted@ == old(self).emitted@.push(rec)
                        &&& final(self).video_queue@.len() == old(self).video_queue@.len() + 1
                        &&& final(self).video_queue@.drop_last() == old(self).video_queue@
                        &&& (match final(self).video_queue@.last() {
                            Some(vd) => rec_of(vd) == rec && vd.video_frame.pts == pts
                                && vd.video_frame.format == old(self).decoder.pixel_format,
                            None => false,
                        })
                        &&& final(self).decoder == (DecoderState {
                            last_frame_time: Some(ft),
                            ..old(self).decoder
                        })
                        &&& !final(self).decoder_done
                        &&& final(self).failed == old(self).failed
                    } else {
                        &&& r == ReceiveStep::BadTimestamp
                        &&& final(self).failed
                        &&& Pipeline::decode_side_same(*old(self), *final(self))
                    }
                },
                ReceiveStatus::Failed { errno } => {
                    &&& r == ReceiveStep::Fatal(errno)
                    &&& final(self).failed
                    &&& final(self).decoder_done
                    &&& final(self).emitted@ == old(self).emitted@
                    &&& final(self).video_queue@ == old(self).video_queue@
                    &&& final(self).decoder == old(self).decoder
                },
            },
    {
        match status {
            ReceiveStatus::Eagain => ReceiveStep::Waiting,
            ReceiveStatus::Eof => {
                self.video_queue.add(None);
                self.decoder_done = true;
                ReceiveStep::Finished
            },
            ReceiveStatus::Frame { pts } => {
                let serial: u64 = self.decoder.seek_serial;
                match self.decoder.on_decoded_frame(pts) {
                    Some((ft, d)) => {
                        let fr = Frame {
                            pts,
                            width: 0,
                            height: 0,
                            format: self.decoder.pixel_format,
                            planes: Vec::new(),
                        };
                        self.video_queue.add(Some(VideoData::new(serial, ft, d, fr)));
                        self.emitted.push(FrameRec { serial, frame_time: ft, diff: d });
                        ReceiveStep::Emitted(ft, d)
                    },
                    None => {
                        self.failed = true;
                        ReceiveStep::BadTimestamp
                    },
                }
            },
            ReceiveStatus::Failed { errno } => {
                self.failed = true;
                self.decoder_done = true;
                ReceiveStep::Fatal(errno)
            },
        }
    }

    /// Takes the front envelope off the frame queue; a frame (not the
    /// sentinel) counts as taken, keeping the queue the window of the
    /// emission log that starts at `frames_taken`.
    #[verifier::rlimit(100)]
    #[verifier::spinoff_prover]
    fn take_front(&mut self) -> (r: Option<VideoData>)
        requires
            old(self).video_queue.wf(),
            old(self).video_queue@.len() > 0,
            old(self).window_ok(),
        ensures
            final(self).video_queue.wf(),
            final(self).video_queue.cap() == old(self).video_queue.cap(),
            final(self).window_ok(),
            r == old(self).video_queue@[0],
            final(self).video_queue@ == old(self).video_queue@.drop_first(),
            final(self).frames_taken == old(self).frames_taken + (
            if old(self).video_queue@[0] is Some {
                1int
            } else {
                0int
            }),
            (match r {
                Some(vd) => rec_of(vd) == old(self).emitted@[old(self).frames_taken as int],
                None => true,
            }),
            final(self).presenter == old(self).presenter,
            final(self).drawn@ == old(self).drawn@,
            final(self).emitted@ == old(self).emitted@,
            Pipeline::demux_side_same(*old(self), *final(self)),
            final(self).decoder == old(self).decoder,
            final(self).decoder_serial_ch@ == old(self).decoder_serial_ch@,
            final(self).decoder_done == old(self).decoder_done,
            final(self).presenter_done == old(self).presenter_done,
            final(self).running == old(self).running,
            final(self).failed == old(self).failed,
    {
        let item = self.video_queue.take();
        proof {
            let pre = *old(self);
            assert(self.video_queue@ =~= pre.video_queue@.drop_first());
            let n = pre.emitted@.len() - pre.frames_taken;
            if pre.video_queue@[0] is Some {
                if n == 0 {
                    assert(pre.video_queue@.len() == n + 1);
                    assert(pre.video_queue@[0] is None);
                }
                assert(n >= 1);
                assert forall|i: int| #![trigger self.video_queue@[i]]
                    0 <= i < pre.emitted@.len() - (pre.frames_taken + 1) implies (
                match self.video_queue@[i] {
                    Some(vd2) => rec_of(vd2) == pre.emitted@[pre.frames_taken + 1 + i],
                    None => false,
                }) by {
                    assert(self.video_queue@[i] == pre.video_queue@[i + 1]);
                }
            }
        }
        if item.is_some() {
            let total: usize = self.emitted.len();
            proof {
                assert(self.frames_taken < total);
            }
            self.frames_taken = self.frames_taken + 1;
            proof {
                assert(self.window_ok());
            }
        }
        item
    }

    /// The presenter takes one item from the frame queue (the caller
    /// parks first when it is empty): the end-of-stream sentinel ends
    /// the loop; a stale frame is dropped with no draw and no sleep; a
    /// frame of the current epoch is drawn at its pacing instant.
    #[verifier::rlimit(100)]
    pub fn step_presenter_frame(&mut self, now_ms: u64) -> (r: PresentStep)
        requires
            old(self).wf(),
            !old(self).presenter_done,
            old(self).video_queue@.len() > 0,
        ensures
            final(self).wf(),
            Pipeline::demux_side_same(*old(self), *final(self)),
            final(self).running == old(self).running,
            final(self).decoder == old(self).decoder,
            final(self).decoder_serial_ch@ == old(self).decoder_serial_ch@,
            final(self).emitted@ == old(self).emitted@,
            final(self).decoder_done == old(self).decoder_done,
            final(self).video_queue@ == old(self).video_queue@.drop_first(),
            match r {
                PresentStep::Eos => {
                    &&& old(self).video_queue@[0] is None
                    &&& final(self).presenter_done
                    &&& final(self).presenter == old(self).presenter
                    &&& final(self).drawn@ == old(self).drawn@
                    &&& final(self).frames_taken == old(self).frames_taken
                    &&& final(self).failed == old(self).failed
                },
                PresentStep::Stale => {
                    &&& (match old(self).video_queue@[0] {
                        Some(vd) => vd.serial != old(self).presenter.seek_serial,
                        None => false,
                    })
                    &&& final(self).presenter == old(self).presenter
                    &&& final(self).drawn@ == old(self).drawn@
                    &&& final(self).frames_taken == old(self).frames_taken + 1
                    &&& !final(self).presenter_done
                    &&& final(self).failed == old(self).failed
                },
                PresentStep::Drawn(at) => {
                    &&& (match old(self).video_queue@[0] {
                        Some(vd) => {
                            &&& vd.serial == old(self).presenter.seek_serial
                            &&& at == old(self).presenter.spec_draw_at(
                                vd.diff_to_prev_frame,
                                now_ms,
                            )
                            &&& final(self).presenter == old(self).presenter.spec_present(
                                vd.frame_time,
                                vd.diff_to_prev_frame,
                            )
                            &&& final(self).drawn@ == old(self).drawn@.push(
                                DrawnRec {
                                    serial: vd.serial,
                                    frame_time: vd.frame_time,
                                    diff: vd.diff_to_prev_frame,
                                    at_ms: at,
                                },
                            )
                        },
                        None => false,
                    })
                    &&& final(self).frames_taken == old(self).frames_taken + 1
                    &&& !final(self).presenter_done
                    &&& final(self).failed == old(self).failed
                },
                PresentStep::Overflow => {
                    &&& (match old(self).video_queue@[0] {
                        Some(vd) => vd.serial == old(self).presenter.seek_serial && old(
                            self,
                        ).presenter.presentation_time_ms + vd.diff_to_prev_frame > u64::MAX,
                        None => false,
                    })
                    &&& final(self).failed
                    &&& final(self).presenter == old(self).presenter
                    &&& final(self).drawn@ == old(self).drawn@
                    &&& final(self).frames_taken == old(self).frames_taken + 1
                    &&& !final(self).presenter_done
                },
            },
    {
        let item = self.take_front();
        match item {
            None => {
                self.presenter_done = true;
                PresentStep::Eos
            },
            Some(vd) => {
                if self.presenter.should_draw(vd.serial) {
                    if vd.diff_to_prev_frame <= u64::MAX - self.presenter.presentation_time_ms {
                        let at = self.presenter.present_frame(
                            vd.frame_time,
                            vd.diff_to_prev_frame,
                            now_ms,
                        );
                        self.drawn.push(
                            DrawnRec {
                                serial: vd.serial,
                                frame_time: vd.frame_time,
                                diff: vd.diff_to_prev_frame,
                                at_ms: at,
                            },
                        );
                        proof {
                            let pre = *old(self);
                            assert forall|i: int| #![trigger self.drawn@[i]]
                                0 <= i < self.drawn@.len() implies self.drawn@[i].serial
                                <= self.presenter.seek_serial by {
                                if i < pre.drawn@.len() {
                                    assert(self.drawn@[i] == pre.drawn@[i]);
                                }
                            }
                            assert forall|i: int| #![trigger self.drawn@[i]]
                                0 < i < self.drawn@.len() implies self.drawn@[i - 1].serial
                                <= self.drawn@[i].serial by {
                                if i < pre.drawn@.len() {
                                    assert(self.drawn@[i] == pre.drawn@[i]);
                                    assert(self.drawn@[i - 1] == pre.drawn@[i - 1]);
                                } else {
                                    assert(self.drawn@[i - 1].serial
                                        <= pre.presenter.seek_serial);
                                }
                            }
                            assert(self.window_ok());
                            assert(self.wf());
                        }
                        PresentStep::Drawn(at)
                    } else {
                        self.failed = true;
                        proof {
                            assert(self.wf());
                        }
                        PresentStep::Overflow
                    }
                } else {
                    proof {
                        assert(self.wf());
                    }
                    PresentStep::Stale
                }
            },
        }
    }
}

/// Every frame envelope in the frame queue — hence every frame the
/// presenter can be handed — carries an epoch no newer than the
/// controller's current epoch.
pub proof fn lemma_delivered_frames_epoch_bounded(p: Pipeline)
    requires
        p.wf(),
    ensures
        forall|i: int| #![trigger p.video_queue@[i]]
            0 <= i < p.video_queue@.len() ==> (match p.video_queue@[i] {
                Some(vd) => vd.serial <= p.presenter.seek_serial,
                None => true,
            }),
{
    let log = p.emitted@;
    let k = p.frames_taken as int;
    assert forall|i: int| #![trigger p.video_queue@[i]] 0 <= i < p.video_queue@.len() implies (match p.video_queue@[i] {
        Some(vd) => vd.serial <= p.presenter.seek_serial,
        None => true,
    }) by {
        match p.video_queue@[i] {
            Some(vd) => {
                assert(i < log.len() - k);
                lemma_log_serial_monotone(log, k + i, log.len() - 1);
            },
            None => {},
        }
    }
}

/// Every drawn frame carries an epoch no newer than the controller's
/// current epoch.
pub proof fn lemma_drawn_frames_epoch_bounded(p: Pipeline)
    requires
        p.wf(),
    ensures
        forall|i: int| #![trigger p.drawn@[i]]
            0 <= i < p.drawn@.len() ==> p.drawn@[i].serial <= p.presenter.seek_serial,
{
}

/// Any two frames delivered in the same epoch have non-decreasing
/// frame times, in delivery order. Delivery order within an epoch is
/// emission order: the frame queue is FIFO and a seek clears it whole,
/// so frames reach the presenter exactly in the order of the emission
/// log.
pub proof fn lemma_same_epoch_delivery_monotone(p: Pipeline, i: int, j: int)
    requires
        p.wf(),
        0 <= i <= j < p.emitted@.len(),
        p.emitted@[i].serial == p.emitted@[j].serial,
    ensures
        p.emitted@[i].frame_time <= p.emitted@[j].frame_time,
{
    lemma_same_epoch_times_monotone(p.emitted@, i, j);
}

/// The first frame emitted in any epoch carries delta 0.
pub proof fn lemma_epoch_first_delta_zero(p: Pipeline, i: int)
    requires
        p.wf(),
        0 <= i < p.emitted@.len(),
        i == 0 || p.emitted@[i].serial != p.emitted@[i - 1].serial,
    ensures
        p.emitted@[i].diff == 0,
{
}

/// Within an epoch the deltas telescope: from the epoch's first frame
/// `i` through any later frame `j` of the same epoch they sum to
/// `frame_time[j] - frame_time[i]`.
pub proof fn lemma_epoch_deltas_telescope(p: Pipeline, i: int, j: int)
    requires
        p.wf(),
        0 <= i <= j < p.emitted@.len(),
        p.emitted@[i].serial == p.emitted@[j].serial,
        i == 0 || p.emitted@[i - 1].serial != p.emitted@[i].serial,
    ensures
        sum_deltas(p.emitted@, i, j + 1) == p.emitted@[j].frame_time - p.emitted@[i].frame_time,
{
    lemma_epoch_delta_sum(p.emitted@, i, j);
}

/// Drawn frames never regress to an older epoch: the drawn log is
/// sorted by epoch. A frame is drawn only when it carries the
/// presenter's current epoch, and a seek only raises that epoch — so
/// once a seek has returned serial S, every frame drawn from then on
/// carries an epoch of at least S.
pub proof fn lemma_drawn_epochs_sorted(p: Pipeline, i: int, j: int)
    requires
        p.wf(),
        0 <= i <= j < p.drawn@.len(),
    ensures
        p.drawn@[i].serial <= p.drawn@[j].serial,
    decreases j - i,
{
    if i < j {
        lemma_drawn_epochs_sorted(p, i, j - 1);
    }
}

/// Any two frames drawn in the same epoch are drawn in frame-time
/// order: the later one's time is at least the earlier one's.
pub proof fn lemma_drawn_same_epoch_monotone(p: Pipeline, i: int, j: int)
    requires
        p.wf(),
        0 <= i <= j < p.drawn@.len(),
        p.drawn@[i].serial == p.drawn@[j].serial,
    ensures
        p.drawn@[i].frame_time <= p.drawn@[j].frame_time,
    decreases j - i,
{
    if i < j {
        lemma_drawn_epochs_sorted(p, i, j - 1);
        lemma_drawn_epochs_sorted(p, j - 1, j);
        lemma_drawn_same_epoch_monotone(p, i, j - 1);
    }
}

/// No frame envelope is lost between the decoder and the presenter:
/// the taken count and the frame queue partition the emission log, so
/// every emitted frame not yet taken is still in the queue, in
/// emission order. (That every one is eventually taken is up to the
/// driver's scheduling, which no state invariant can promise.)
pub proof fn lemma_no_frame_lost(p: Pipeline)
    requires
        p.wf(),
    ensures
        p.frames_taken <= p.emitted@.len(),
        p.video_queue@.len() >= p.emitted@.len() - p.frames_taken,
        forall|i: int| #![trigger p.emitted@[i]]
            p.frames_taken <= i < p.emitted@.len() ==> (match p.video_queue@[i
                - p.frames_taken] {
                Some(vd) => rec_of(vd) == p.emitted@[i],
                None => false,
            }),
{
    assert forall|i: int| #![trigger p.emitted@[i]]
        p.frames_taken <= i < p.emitted@.len() implies (
    match p.video_queue@[i - p.frames_taken] {
        Some(vd) => rec_of(vd) == p.emitted@[i],
        None => false,
    }) by {
        assert(0 <= i - p.frames_taken < p.emitted@.len() - p.frames_taken);
    }
}

/// The queues never exceed their configured capacities.
pub proof fn lemma_queues_within_capacity(p: Pipeline)
    requires
        p.wf(),
    ensures
        p.packet_queue@.len() <= PACKET_QUEUE_SIZE,
        p.video_queue@.len() <= FRAME_QUEUE_SIZE,
{
}

} // verus!
