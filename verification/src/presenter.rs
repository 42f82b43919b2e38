//! The presenter stage: event handling, epoch filtering and pacing.
//!
//! The presenter pulls frame envelopes, drops any of a stale epoch,
//! and schedules each remaining frame at the presentation anchor plus
//! the frame's delta. The anchor accumulates deltas; it is reset to
//! "now" on unpause, so time spent paused is never caught up. Frames
//! whose target lies in the past are drawn immediately, with no
//! catch-up accumulation across frames.

use vstd::prelude::*;

verus! {

/// The seek step: each seek command moves the target this many
/// milliseconds from the last drawn frame.
pub const SEEK_STEP_MS: u64 = 20000;

/// The input events the presenter acts on.
#[derive(Clone, Copy, Debug, PartialEq, Eq, Structural)]
pub enum EventState {
    Quit,
    Pause,
    SeekForward,
    SeekBackward,
    Resize,
}

/// The presenter's controller-side state.
pub struct PresenterState {
    /// Whether playback is paused; pausing is presenter-local, the
    /// workers keep filling the queues until backpressure holds them.
    pub paused: bool,
    /// Set by a seek while paused, so exactly one frame is drawn to
    /// refresh the view.
    pub need_update: bool,
    /// The wall-clock anchor, in milliseconds of a monotonic clock,
    /// from which frame targets are computed.
    pub presentation_time_ms: u64,
    /// The time of the last drawn frame, used to compute seek targets.
    pub last_pts: u64,
    /// The epoch the presenter currently accepts: the controller's
    /// authority value.
    pub seek_serial: u64,
}

impl PresenterState {
    pub fn new(now_ms: u64) -> (r: PresenterState)
        ensures
            r.paused == false,
            r.need_update == false,
            r.presentation_time_ms == now_ms,
            r.last_pts == 0,
            r.seek_serial == 0,
    {
        PresenterState {
            paused: false,
            need_update: false,
            presentation_time_ms: now_ms,
            last_pts: 0,
            seek_serial: 0,
        }
    }

    /// Whether the event wait should block: only when paused with no
    /// pending refresh; otherwise events are polled without blocking.
    pub fn wait_for_event(&self) -> (r: bool)
        ensures
            r == (self.paused && !self.need_update),
    {
        self.paused && !self.need_update
    }

    /// The state after a pause toggle at instant `now_ms`: entering
    /// unpaused resets the anchor to now, so the pause gap is not
    /// caught up.
    pub open spec fn spec_toggle_pause(self, now_ms: u64) -> PresenterState {
        PresenterState {
            paused: !self.paused,
            presentation_time_ms: if self.paused {
                now_ms
            } else {
                self.presentation_time_ms
            },
            ..self
        }
    }

    pub fn on_pause_toggle(&mut self, now_ms: u64)
        ensures
            *final(self) == old(self).spec_toggle_pause(now_ms),
    {
        if self.paused {
            self.presentation_time_ms = now_ms;
        }
        self.paused = !self.paused;
    }

    /// The seek target: the last drawn frame's time moved one step
    /// forward or backward.
    pub fn seek_target(&self, forward: bool) -> (r: i64)
        requires
            self.last_pts + SEEK_STEP_MS <= i64::MAX,
        ensures
            forward ==> r == self.last_pts + SEEK_STEP_MS,
            !forward ==> r == self.last_pts - SEEK_STEP_MS,
    {
        if forward {
            self.last_pts as i64 + SEEK_STEP_MS as i64
        } else {
            self.last_pts as i64 - SEEK_STEP_MS as i64
        }
    }

    /// The state after a seek was issued: the new epoch is adopted,
    /// the target becomes the reference for further seeks (a target
    /// before the start of the stream reads as its start), and one
    /// refresh frame is owed even while paused.
    pub open spec fn spec_on_seek_issued(self, target: i64, new_serial: u64) -> PresenterState {
        PresenterState {
            seek_serial: new_serial,
            last_pts: if target >= 0 {
                target as u64
            } else {
                0
            },
            need_update: true,
            ..self
        }
    }

    pub fn on_seek_issued(&mut self, target: i64, new_serial: u64)
        requires
            old(self).seek_serial <= new_serial,
        ensures
            *final(self) == old(self).spec_on_seek_issued(target, new_serial),
    {
        self.seek_serial = new_serial;
        self.last_pts = if target >= 0 {
            target as u64
        } else {
            0
        };
        self.need_update = true;
    }

    /// Whether a frame of epoch `serial` is drawn: exactly the frames
    /// of the presenter's own epoch; every other frame is silently
    /// dropped, with no draw and no sleep.
    pub fn should_draw(&self, serial: u64) -> (r: bool)
        ensures
            r == (serial == self.seek_serial),
    {
        serial == self.seek_serial
    }

    /// The instant a frame with delta `diff` is drawn when "now" is
    /// `now_ms`: at its target `anchor + diff` when that is still in
    /// the future, else immediately.
    pub open spec fn spec_draw_at(self, diff: u64, now_ms: u64) -> int {
        if self.presentation_time_ms + diff > now_ms {
            self.presentation_time_ms + diff
        } else {
            now_ms as int
        }
    }

    /// The state after presenting a frame: the anchor has moved by the
    /// frame's delta, the frame's time is the new seek reference, and
    /// no refresh is owed any more.
    pub open spec fn spec_present(self, frame_time: u64, diff: u64) -> PresenterState
        recommends
            self.presentation_time_ms + diff <= u64::MAX,
    {
        PresenterState {
            presentation_time_ms: (self.presentation_time_ms + diff) as u64,
            last_pts: frame_time,
            need_update: false,
            ..self
        }
    }

    /// Presents one frame of the current epoch: returns the instant it
    /// is drawn at (the caller sleeps until then when it lies in the
    /// future) and advances the anchor by the frame's delta.
    pub fn present_frame(&mut self, frame_time: u64, diff_to_prev_frame: u64, now_ms: u64) -> (r:
        u64)
        requires
            old(self).presentation_time_ms + diff_to_prev_frame <= u64::MAX,
        ensures
            r == old(self).spec_draw_at(diff_to_prev_frame, now_ms),
            *final(self) == old(self).spec_present(frame_time, diff_to_prev_frame),
    {
        let target: u64 = self.presentation_time_ms + diff_to_prev_frame;
        self.presentation_time_ms = target;
        self.last_pts = frame_time;
        self.need_update = false;
        if target > now_ms {
            target
        } else {
            now_ms
        }
    }
}

/// Pause then unpause preserves wall-clock pacing: unpausing
/// re-anchors the clock at the unpause instant, however long the pause
/// lasted; the first frame presented after it has its target exactly
/// one delta past that instant, the next exactly one more delta past,
/// and the instants frames are drawn at never decrease.
pub proof fn lemma_pause_unpause_pacing(
    p: PresenterState,
    t_pause: u64,
    t_unpause: u64,
    f1: u64,
    d1: u64,
    now1: u64,
    f2: u64,
    d2: u64,
    now2: u64,
)
    requires
        !p.paused,
        t_unpause + d1 + d2 <= u64::MAX,
        now1 <= now2,
    ensures
        ({
            let paused_state = p.spec_toggle_pause(t_pause);
            let unpaused = paused_state.spec_toggle_pause(t_unpause);
            let after_first = unpaused.spec_present(f1, d1);
            &&& paused_state.paused
            &&& !unpaused.paused
            &&& unpaused.presentation_time_ms == t_unpause
            &&& after_first.presentation_time_ms == t_unpause + d1
            &&& after_first.spec_present(f2, d2).presentation_time_ms == t_unpause + d1 + d2
            &&& unpaused.spec_draw_at(d1, now1) <= after_first.spec_draw_at(d2, now2)
        }),
{
}

} // verus!
