//! The controller of the decoding pipeline.
//!
//! A `FileDecoder` owns the epoch counter, the lifetime flag and the
//! sending ends of the command channels. Building and initialising it
//! prepares the two worker stages — the demuxer and the decoder — as
//! plain state bundles together with the two bounded queues; the
//! caller runs each stage in a thread of its own and wires it to the
//! codec backend. A seek bumps the epoch and fans it out to both
//! workers, then sends the target to the demuxer; shutdown releases
//! the lifetime flag, which the workers observe at their next
//! top-of-loop check.

pub mod error;

use vstd::prelude::*;

use std::sync::mpsc::Receiver;
use std::sync::mpsc::Sender;
use std::sync::Arc;

use crate::channel;
use crate::decoder::DecoderState;
use crate::demuxer::DemuxerState;
use crate::frame::PacketData;

pub use crate::frame::VideoData;
use crate::pixel::PixelFormat;
use crate::queue::BoundedQueue;
use crate::rational::Rational;

verus! {

/// The packet queue holds at most this many envelopes; generous, to
/// absorb decoder jitter.
pub const PACKET_QUEUE_SIZE: usize = 60;

/// The frame queue holds at most this many envelopes; small, so a seek
/// loses minimal work and memory.
pub const FRAME_QUEUE_SIZE: usize = 3;

/// The pipeline's opaque error value: some stage failed fatally.
#[derive(Clone, Copy, Debug, PartialEq, Eq, Structural)]
pub struct FileDecoderError;

impl FileDecoderError {
    /// A printable description, in place of a display implementation.
    pub fn message(&self) -> String {
        "File decoder error".to_string()
    }
}

/// What probing the container yields about the selected video stream:
/// everything the pipeline core needs from the source.
#[derive(Clone, Copy, Debug)]
pub struct StreamInfo {
    pub stream_index: usize,
    pub time_base: Rational,
    pub width: u32,
    pub height: u32,
}

impl StreamInfo {
    pub open spec fn wf(self) -> bool {
        self.time_base.wf()
    }
}

/// The demuxer stage, ready to run: its state and the receiving ends
/// of its command channels.
pub struct DemuxerLink {
    pub state: DemuxerState,
    pub seek_receiver: Receiver<i64>,
    pub serial_receiver: Receiver<u64>,
}

impl DemuxerLink {
    /// One top-of-loop poll of the demuxer's two command channels, the
    /// epoch channel before the seek channel, applied to the stage
    /// state by `DemuxerState::on_commands`, whose contract says what
    /// each polled pair does. What a poll finds depends on the
    /// controller thread and cannot be pinned here; `Pipeline` models
    /// the channel contents and carries the exact protocol. On a
    /// returned target the caller invokes the backend seek and clears
    /// the packet queue; the error is a seek failure, fatal to the
    /// demuxer.
    pub fn poll_commands(&mut self) -> (r: Result<Option<i64>, FileDecoderError>)
        requires
            old(self).state.wf(),
        ensures
            final(self).state.wf(),
            final(self).state.stream_index == old(self).state.stream_index,
            final(self).state.time_base == old(self).state.time_base,
            r matches Err(e) ==> e == FileDecoderError,
    {
        let serial = channel::try_recv_u64(&self.serial_receiver);
        let seek = channel::try_recv_i64(&self.seek_receiver);
        self.state.on_commands(serial, seek)
    }
}

/// The decoder stage, ready to run: its state and the receiving end of
/// its epoch channel.
pub struct DecoderLink {
    pub state: DecoderState,
    pub serial_receiver: Receiver<u64>,
}

impl DecoderLink {
    /// One top-of-loop poll of the decoder's epoch channel: a pending
    /// epoch is adopted and returned; the caller then flushes the
    /// codec backend and clears the frame queue, so no buffered output
    /// of the old epoch survives.
    pub fn poll_serial(&mut self) -> (r: Option<u64>)
        ensures
            match r {
                Some(s) => final(self).state == old(self).state.spec_on_new_serial(s),
                None => final(self).state == old(self).state,
            },
    {
        let polled = channel::try_recv_u64(&self.serial_receiver);
        match polled {
            Some(s) => {
                self.state.on_new_serial(s);
                Some(s)
            },
            None => None,
        }
    }
}

/// Everything the two worker threads take with them: the stage states,
/// their command receivers and the two queues that connect the stages.
pub struct WorkerSetup {
    pub demuxer: DemuxerLink,
    pub decoder: DecoderLink,
    pub packet_queue: BoundedQueue<Option<PacketData>>,
    pub video_queue: BoundedQueue<Option<VideoData>>,
}

/// Builds a `FileDecoder` from a source path and an output pixel
/// format; the format defaults to planar 4:2:0.
pub struct FileDecoderBuilder {
    pub uri: String,
    pub pixel_format: PixelFormat,
}

impl FileDecoderBuilder {
    pub open spec fn spec_uri(&self) -> Seq<char> {
        self.uri@
    }

    pub open spec fn spec_pixel_format(&self) -> PixelFormat {
        self.pixel_format
    }

    pub fn new(uri: String) -> (r: FileDecoderBuilder)
        ensures
            r.spec_uri() == uri@,
            r.spec_pixel_format() == PixelFormat::Yuv420p,
    {
        FileDecoderBuilder { uri, pixel_format: PixelFormat::Yuv420p }
    }

    pub fn pixel_format(&mut self, pix_fmt: PixelFormat) -> (r: &mut FileDecoderBuilder)
        ensures
            *r == (FileDecoderBuilder { pixel_format: pix_fmt, ..*old(self) }),
            *final(self) == *final(r),
    {
        self.pixel_format = pix_fmt;
        self
    }

    pub fn uri(&mut self, uri: String) -> (r: &mut FileDecoderBuilder)
        ensures
            *r == (FileDecoderBuilder { uri: uri, ..*old(self) }),
            *final(self) == *final(r),
    {
        self.uri = uri;
        self
    }

    /// Makes the controller. Opening the container and probing the
    /// stream happen when the caller initialises it.
    pub fn build(&self) -> (r: Result<FileDecoder, FileDecoderError>)
        ensures
            match r {
                Ok(fd) => {
                    &&& fd.uri@ == self.spec_uri()
                    &&& fd.pixel_format == self.spec_pixel_format()
                    &&& fd.width == 0
                    &&& fd.height == 0
                    &&& fd.seek_serial == 0
                    &&& fd.running is None
                    &&& fd.worker_data is None
                    &&& !fd.is_initialized()
                },
                Err(_) => false,
            },
    {
        Ok(FileDecoder::new(self.uri.clone(), self.pixel_format))
    }
}

/// The pipeline controller.
pub struct FileDecoder {
    pub uri: String,
    pub pixel_format: PixelFormat,
    pub width: u32,
    pub height: u32,
    pub seek_serial: u64,
    pub running: Option<Arc<bool>>,
    pub demuxer_seek_sender: Option<Sender<i64>>,
    pub demuxer_serial_sender: Option<Sender<u64>>,
    pub decoder_serial_sender: Option<Sender<u64>>,
    pub worker_data: Option<WorkerSetup>,
}

impl FileDecoder {
    /// The sending ends of all three command channels are in place.
    pub open spec fn is_initialized(&self) -> bool {
        &&& self.demuxer_seek_sender is Some
        &&& self.demuxer_serial_sender is Some
        &&& self.decoder_serial_sender is Some
    }

    pub fn new(uri: String, pixel_format: PixelFormat) -> (r: FileDecoder)
        ensures
            r.uri@ == uri@,
            r.pixel_format == pixel_format,
            r.width == 0,
            r.height == 0,
            r.seek_serial == 0,
            r.running is None,
            r.worker_data is None,
            !r.is_initialized(),
    {
        FileDecoder {
            uri,
            pixel_format,
            width: 0,
            height: 0,
            seek_serial: 0,
            running: None,
            demuxer_seek_sender: None,
            demuxer_serial_sender: None,
            decoder_serial_sender: None,
            worker_data: None,
        }
    }

    /// Sets up the control plane from the probed stream facts: takes
    /// the picture size, raises the lifetime flag, makes the three
    /// command channels and prepares both worker stages with fresh
    /// epoch 0 and the two empty bounded queues.
    pub fn init(&mut self, info: &StreamInfo) -> (r: Result<(), FileDecoderError>)
        requires
            info.wf(),
        ensures
            r is Ok,
            final(self).uri == old(self).uri,
            final(self).pixel_format == old(self).pixel_format,
            final(self).width == info.width,
            final(self).height == info.height,
            final(self).seek_serial == old(self).seek_serial,
            final(self).is_initialized(),
            match final(self).running {
                Some(a) => *a == true,
                None => false,
            },
            match final(self).worker_data {
                Some(w) => {
                    &&& w.demuxer.state.seek_serial == 0
                    &&& w.demuxer.state.stream_index == info.stream_index
                    &&& w.demuxer.state.time_base == info.time_base
                    &&& w.demuxer.state.wf()
                    &&& w.decoder.state.seek_serial == 0
                    &&& w.decoder.state.sent_eof == false
                    &&& w.decoder.state.last_frame_time is None
                    &&& w.decoder.state.time_base == info.time_base
                    &&& w.decoder.state.pixel_format == old(self).pixel_format
                    &&& w.decoder.state.wf()
                    &&& w.packet_queue@ =~= Seq::<Option<PacketData>>::empty()
                    &&& w.packet_queue.cap() == PACKET_QUEUE_SIZE
                    &&& w.packet_queue.wf()
                    &&& w.video_queue@ =~= Seq::<Option<VideoData>>::empty()
                    &&& w.video_queue.cap() == FRAME_QUEUE_SIZE
                    &&& w.video_queue.wf()
                },
                None => false,
            },
    {
        let (demuxer_seek_sender, demuxer_seek_receiver) = channel::channel_i64();
        let (demuxer_serial_sender, demuxer_serial_receiver) = channel::channel_u64();
        let (decoder_serial_sender, decoder_serial_receiver) = channel::channel_u64();

        self.width = info.width;
        self.height = info.height;
        self.running = Some(Arc::new(true));
        self.demuxer_seek_sender = Some(demuxer_seek_sender);
        self.demuxer_serial_sender = Some(demuxer_serial_sender);
        self.decoder_serial_sender = Some(decoder_serial_sender);
        self.worker_data = Some(
            WorkerSetup {
                demuxer: DemuxerLink {
                    state: DemuxerState::new(info.stream_index, info.time_base),
                    seek_receiver: demuxer_seek_receiver,
                    serial_receiver: demuxer_serial_receiver,
                },
                decoder: DecoderLink {
                    state: DecoderState::new(info.time_base, self.pixel_format),
                    serial_receiver: decoder_serial_receiver,
                },
                packet_queue: BoundedQueue::new_with_capacity(PACKET_QUEUE_SIZE),
                video_queue: BoundedQueue::new_with_capacity(FRAME_QUEUE_SIZE),
            },
        );
        Ok(())
    }

    /// Hands the prepared worker stages out to be run, one thread
    /// each. The stages must have been initialised and not started
    /// before.
    pub fn start(&mut self) -> (r: Result<WorkerSetup, FileDecoderError>)
        requires
            old(self).worker_data is Some,
        ensures
            match r {
                Ok(w) => old(self).worker_data == Some(w),
                Err(_) => false,
            },
            final(self).worker_data is None,
            final(self).uri == old(self).uri,
            final(self).pixel_format == old(self).pixel_format,
            final(self).width == old(self).width,
            final(self).height == old(self).height,
            final(self).seek_serial == old(self).seek_serial,
            final(self).running == old(self).running,
            final(self).demuxer_seek_sender == old(self).demuxer_seek_sender,
            final(self).demuxer_serial_sender == old(self).demuxer_serial_sender,
            final(self).decoder_serial_sender == old(self).decoder_serial_sender,
    {
        let mut taken: Option<WorkerSetup> = None;
        std::mem::swap(&mut self.worker_data, &mut taken);
        match taken {
            Some(w) => Ok(w),
            None => Err(FileDecoderError),
        }
    }

    /// Bumps the epoch and fans it out: the new epoch to the decoder,
    /// then to the demuxer, then the seek target to the demuxer, which
    /// reads the epoch before the target. Returns the new epoch. A
    /// failed send means the receiving worker is gone: that is the
    /// shutdown signal, not a fault — the caller ends its loop and
    /// completes shutdown. The epoch is bumped either way.
    pub fn seek(&mut self, seek_to: i64) -> (r: Result<u64, error::FileDecoderError>)
        requires
            old(self).is_initialized(),
            old(self).seek_serial < u64::MAX,
        ensures
            final(self).seek_serial == old(self).seek_serial + 1,
            final(self).uri == old(self).uri,
            final(self).pixel_format == old(self).pixel_format,
            final(self).width == old(self).width,
            final(self).height == old(self).height,
            final(self).running == old(self).running,
            final(self).worker_data == old(self).worker_data,
            final(self).is_initialized(),
            match r {
                Ok(s) => s == old(self).seek_serial + 1,
                Err(e) => e == error::FileDecoderError::SendError(
                    (old(self).seek_serial + 1) as u64,
                ),
            },
    {
        self.seek_serial = self.seek_serial + 1;
        let serial_ok: bool = match &self.decoder_serial_sender {
            Some(tx) => channel::send_u64(tx, self.seek_serial),
            None => false,
        };
        if !serial_ok {
            return Err(error::FileDecoderError::SendError(self.seek_serial));
        }
        let demux_serial_ok: bool = match &self.demuxer_serial_sender {
            Some(tx) => channel::send_u64(tx, self.seek_serial),
            None => false,
        };
        if !demux_serial_ok {
            return Err(error::FileDecoderError::SendError(self.seek_serial));
        }
        let seek_ok: bool = match &self.demuxer_seek_sender {
            Some(tx) => channel::send_i64(tx, seek_to),
            None => false,
        };
        if !seek_ok {
            return Err(error::FileDecoderError::SendError(self.seek_serial));
        }
        Ok(self.seek_serial)
    }

    /// Releases the lifetime flag: the workers observe the downgraded
    /// reference as gone at their next top-of-loop check and exit. The
    /// caller clears the queues, so a parked worker wakes, and then
    /// joins the threads.
    pub fn stop(&mut self)
        ensures
            final(self).running is None,
            final(self).uri == old(self).uri,
            final(self).pixel_format == old(self).pixel_format,
            final(self).width == old(self).width,
            final(self).height == old(self).height,
            final(self).seek_serial == old(self).seek_serial,
            final(self).worker_data == old(self).worker_data,
            final(self).demuxer_seek_sender == old(self).demuxer_seek_sender,
            final(self).demuxer_serial_sender == old(self).demuxer_serial_sender,
            final(self).decoder_serial_sender == old(self).decoder_serial_sender,
    {
        self.running = None;
    }

    pub fn width(&self) -> (r: u32)
        ensures
            r == self.width,
    {
        self.width
    }

    pub fn height(&self) -> (r: u32)
        ensures
            r == self.height,
    {
        self.height
    }

    pub fn pixel_format(&self) -> (r: PixelFormat)
        ensures
            r == self.pixel_format,
    {
        self.pixel_format
    }
}

} // verus!
