//! A plain player controller: the pipeline without the epoch
//! protocol.
//!
//! This earlier shape of the controller plays linearly — no seek, no
//! epochs, pause held controller-side only. The worker stages it
//! controls are the same demuxer and decoder loops, with every
//! envelope implicitly of epoch 0. The caller opens the container,
//! probes the stream and runs the worker threads; the controller holds
//! the pieces the core owns: the picture size, the pause flag and the
//! lifetime flag.

pub mod error;

use vstd::prelude::*;

use std::sync::Arc;

use crate::frame::Frame;

pub use error::PlayerError;

verus! {

/// A frame envelope of the plain player: one decoded picture with its
/// millisecond time and the difference to the previous frame.
pub struct VideoData {
    pub frame_time: u64,
    pub diff_to_prev_frame: u64,
    pub video_frame: Frame,
}

impl VideoData {
    pub fn new(frame_time: u64, diff_to_prev_frame: u64, video_frame: Frame) -> (r: VideoData)
        ensures
            r.frame_time == frame_time,
            r.diff_to_prev_frame == diff_to_prev_frame,
            r.video_frame == video_frame,
    {
        VideoData { frame_time, diff_to_prev_frame, video_frame }
    }
}

/// The plain player's controller state.
pub struct Player {
    pub uri: String,
    pub width: u32,
    pub height: u32,
    pub paused: bool,
    pub running: Option<Arc<bool>>,
}

impl Player {
    pub fn new() -> (r: Player)
        ensures
            r.uri@ == Seq::<char>::empty(),
            r.width == 0,
            r.height == 0,
            r.paused == false,
            r.running is None,
    {
        Player { uri: String::new(), width: 0, height: 0, paused: false, running: None }
    }

    /// Adopts the source path and the probed picture size and raises
    /// the lifetime flag. The caller opens the container, probes the
    /// stream, and spawns the demuxer and decoder loops around the
    /// bounded queues.
    pub fn start(&mut self, uri: &String, width: u32, height: u32) -> (r: Result<
        (),
        PlayerError,
    >)
        ensures
            r is Ok,
            final(self).uri@ == uri@,
            final(self).width == width,
            final(self).height == height,
            final(self).paused == old(self).paused,
            match final(self).running {
                Some(a) => *a == true,
                None => false,
            },
    {
        self.uri = uri.clone();
        self.width = width;
        self.height = height;
        self.running = Some(Arc::new(true));
        Ok(())
    }

    /// Releases the lifetime flag: the workers observe the downgraded
    /// reference as gone and exit. The caller clears the queues, so a
    /// parked worker wakes, and then joins the threads.
    pub fn stop(&mut self) -> (r: Result<(), PlayerError>)
        ensures
            r is Ok,
            final(self).running is None,
            final(self).uri == old(self).uri,
            final(self).width == old(self).width,
            final(self).height == old(self).height,
            final(self).paused == old(self).paused,
    {
        self.running = None;
        Ok(())
    }

    pub fn width(&self) -> (r: u32)
        ensures
            r == self.width,
    {
        self.width
    }

    pub fn height(&self) -> (r: u32)
        ensures
            r == self.height,
    {
        self.height
    }

    /// Pausing is controller-local: the workers keep filling the
    /// queues until backpressure holds them, so resume latency is
    /// zero.
    pub fn set_paused(&mut self, paused: bool)
        ensures
            final(self).paused == paused,
            final(self).uri == old(self).uri,
            final(self).width == old(self).width,
            final(self).height == old(self).height,
            final(self).running == old(self).running,
    {
        self.paused = paused;
    }
}

} // verus!
