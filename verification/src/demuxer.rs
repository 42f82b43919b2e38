//! The demuxer stage: command handling and packet admission.
//!
//! The demuxer pulls packets from the container, keeps only those of
//! the selected video stream, tags each with the epoch it was demuxed
//! under and hands it on. A seek command is rescaled from stream time
//! base units to the codec backend's reference time base; after the
//! backend seek the packet queue is cleared so no pre-seek packet can
//! reach the decoder.

use vstd::prelude::*;

use crate::file_decoder::FileDecoderError;
use crate::frame::PacketData;
use crate::rational::{spec_rescale, Rational};

verus! {

/// The demuxer's worker-local state.
pub struct DemuxerState {
    /// The epoch the demuxer currently produces under.
    pub seek_serial: u64,
    /// The index of the selected video stream.
    pub stream_index: usize,
    /// The time base of the selected stream.
    pub time_base: Rational,
}

impl DemuxerState {
    pub open spec fn wf(self) -> bool {
        self.time_base.wf()
    }

    pub fn new(stream_index: usize, time_base: Rational) -> (r: DemuxerState)
        requires
            time_base.wf(),
        ensures
            r.seek_serial == 0,
            r.stream_index == stream_index,
            r.time_base == time_base,
            r.wf(),
    {
        DemuxerState { seek_serial: 0, stream_index, time_base }
    }

    /// The epoch after polling the epoch channel: the received value,
    /// or the old one when nothing was pending.
    pub open spec fn spec_serial_after(self, serial: Option<u64>) -> u64 {
        match serial {
            Some(s) => s,
            None => self.seek_serial,
        }
    }

    /// A seek target rescaled from stream time base units to the codec
    /// backend's reference time base, rounded toward zero.
    pub open spec fn spec_seek_target(self, seek_to: int) -> int {
        spec_rescale(seek_to, self.time_base, Rational { num: 1, den: 1000000 })
    }

    /// Handles one top-of-loop poll of the two command channels: the
    /// epoch channel first, then the seek channel. Returns the seek
    /// target in the backend's reference time base when a seek was
    /// pending; the caller must then invoke the backend seek and clear
    /// the packet queue. A target that cannot be represented in the
    /// reference time base is a seek failure, fatal to the demuxer.
    pub fn on_commands(&mut self, serial: Option<u64>, seek_to: Option<i64>) -> (r: Result<
        Option<i64>,
        FileDecoderError,
    >)
        requires
            old(self).wf(),
        ensures
            final(self).wf(),
            final(self).seek_serial == old(self).spec_serial_after(serial),
            final(self).stream_index == old(self).stream_index,
            final(self).time_base == old(self).time_base,
            match seek_to {
                None => r == Result::<Option<i64>, FileDecoderError>::Ok(None),
                Some(t) => {
                    if i64::MIN <= old(self).spec_seek_target(t as int) <= i64::MAX {
                        r == Ok::<Option<i64>, FileDecoderError>(
                            Some((old(self).spec_seek_target(t as int)) as i64),
                        )
                    } else {
                        r == Result::<Option<i64>, FileDecoderError>::Err(FileDecoderError)
                    }
                },
            },
    {
        if let Some(s) = serial {
            self.seek_serial = s;
        }
        match seek_to {
            None => Ok(None),
            Some(t) => {
                match crate::rational::rescale(t, self.time_base, Rational::backend_ref()) {
                    Some(target) => Ok(Some(target)),
                    None => Err(FileDecoderError),
                }
            },
        }
    }

    /// Filters one demuxed packet: a packet of the selected stream is
    /// wrapped with the current epoch, any other is dropped.
    pub fn on_packet(&self, stream_index: usize, pts: Option<i64>, data: Vec<u8>) -> (r: Option<
        PacketData,
    >)
        ensures
            match r {
                Some(pd) => {
                    &&& stream_index == self.stream_index
                    &&& pd.serial == self.seek_serial
                    &&& pd.stream_index == stream_index
                    &&& pd.pts == pts
                    &&& pd.data == data
                },
                None => stream_index != self.stream_index,
            },
    {
        if stream_index == self.stream_index {
            Some(PacketData::new(self.seek_serial, stream_index, pts, data))
        } else {
            None
        }
    }
}

} // verus!
