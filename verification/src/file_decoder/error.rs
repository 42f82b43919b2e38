//! The decoder pipeline's error kinds.

use vstd::prelude::*;

use crate::codec::CodecError;

verus! {

/// What a pipeline stage reports when it cannot go on. A backend
/// failure is fatal; a failed command send only means the receiving
/// worker is gone — the shutdown signal, not a fault.
#[derive(Clone, Copy, Debug, PartialEq, Eq, Structural)]
pub enum FileDecoderError {
    /// The codec backend reported this error; fatal to the stage.
    FfmpegError(CodecError),
    /// A command could not be delivered because the receiving worker
    /// is gone: the pipeline is shutting down. Carries the undelivered
    /// epoch.
    SendError(u64),
}

impl FileDecoderError {
    /// A printable description naming the failing side, in place of a
    /// display implementation.
    pub fn message(&self) -> String {
        match self {
            FileDecoderError::FfmpegError(CodecError::StreamNotFound) => {
                "File decoder error ffmpeg: stream not found".to_string()
            },
            FileDecoderError::FfmpegError(CodecError::Eof) => {
                "File decoder error ffmpeg: end of stream".to_string()
            },
            FileDecoderError::FfmpegError(CodecError::Eagain) => {
                "File decoder error ffmpeg: needs more input".to_string()
            },
            FileDecoderError::FfmpegError(CodecError::Other { .. }) => {
                "File decoder error ffmpeg: backend failure".to_string()
            },
            FileDecoderError::SendError(_) => {
                "File decoder error send error: worker gone".to_string()
            },
        }
    }
}

} // verus!
