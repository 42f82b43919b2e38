//! The envelopes that travel through the two queues.
//!
//! A packet envelope wraps one undecoded payload together with the
//! epoch it was demuxed under; a frame envelope wraps one decoded
//! picture together with its epoch and timing. Pictures are held as
//! plain planes so the presenter can upload them with per-plane
//! strides.

use vstd::prelude::*;

use crate::pixel::PixelFormat;

verus! {

/// One plane of a decoded picture: its bytes and the stride (bytes per
/// row) they are laid out with.
pub struct Plane {
    pub data: Vec<u8>,
    pub stride: usize,
}

/// A decoded picture after colorspace conversion: the core's output
/// unit. Planar 4:2:0 frames carry three planes, packed formats one.
pub struct Frame {
    pub pts: Option<i64>,
    pub width: u32,
    pub height: u32,
    pub format: PixelFormat,
    pub planes: Vec<Plane>,
}

impl Frame {
    /// A frame is well formed when it carries as many planes as its
    /// format prescribes.
    pub open spec fn wf(self) -> bool {
        self.planes@.len() == self.format.spec_plane_count()
    }

    pub fn planes(&self) -> (r: usize)
        ensures
            r == self.planes@.len(),
    {
        self.planes.len()
    }

    pub fn stride(&self, idx: usize) -> (r: usize)
        requires
            idx < self.planes@.len(),
        ensures
            r == self.planes@[idx as int].stride,
    {
        self.planes[idx].stride
    }

    pub fn data(&self, idx: usize) -> (r: &Vec<u8>)
        requires
            idx < self.planes@.len(),
        ensures
            r@ == self.planes@[idx as int].data@,
    {
        &self.planes[idx].data
    }

    pub fn set_pts(&mut self, pts: Option<i64>)
        ensures
            final(self).pts == pts,
            final(self).width == old(self).width,
            final(self).height == old(self).height,
            final(self).format == old(self).format,
            final(self).planes == old(self).planes,
    {
        self.pts = pts;
    }
}

/// A packet envelope: one undecoded payload tagged with the epoch it
/// was produced under. Created by the demuxer, consumed and destroyed
/// by the decoder.
pub struct PacketData {
    pub serial: u64,
    pub stream_index: usize,
    pub pts: Option<i64>,
    pub data: Vec<u8>,
}

impl PacketData {
    pub fn new(serial: u64, stream_index: usize, pts: Option<i64>, data: Vec<u8>) -> (r:
        PacketData)
        ensures
            r.serial == serial,
            r.stream_index == stream_index,
            r.pts == pts,
            r.data == data,
    {
        PacketData { serial, stream_index, pts, data }
    }
}

/// A frame envelope: one decoded picture tagged with its epoch,
/// presentation time in milliseconds and the difference to the
/// previous frame of the same epoch. Created by the decoder, consumed
/// by the presenter.
pub struct VideoData {
    pub serial: u64,
    pub frame_time: u64,
    pub diff_to_prev_frame: u64,
    pub video_frame: Frame,
}

impl VideoData {
    pub fn new(serial: u64, frame_time: u64, diff_to_prev_frame: u64, video_frame: Frame) -> (r:
        VideoData)
        ensures
            r.serial == serial,
            r.frame_time == frame_time,
            r.diff_to_prev_frame == diff_to_prev_frame,
            r.video_frame == video_frame,
    {
        VideoData { serial, frame_time, diff_to_prev_frame, video_frame }
    }
}

} // verus!
