//! The player's error kind.

use vstd::prelude::*;

use crate::codec::CodecError;

verus! {

/// A fatal player failure: the codec backend reported this error.
#[derive(Clone, Copy, Debug, PartialEq, Eq, Structural)]
pub enum PlayerError {
    FfmpegError(CodecError),
}

impl PlayerError {
    /// A printable description naming the backend error kind, in place
    /// of a display implementation.
    pub fn message(&self) -> String {
        match self {
            PlayerError::FfmpegError(CodecError::StreamNotFound) => {
                "PlayerError: stream not found".to_string()
            },
            PlayerError::FfmpegError(CodecError::Eof) => {
                "PlayerError: end of stream".to_string()
            },
            PlayerError::FfmpegError(CodecError::Eagain) => {
                "PlayerError: needs more input".to_string()
            },
            PlayerError::FfmpegError(CodecError::Other { .. }) => {
                "PlayerError: backend failure".to_string()
            },
        }
    }
}

/// Wraps a codec backend error as a player error.
pub fn to_player_error(err: CodecError) -> (r: PlayerError)
    ensures
        r == PlayerError::FfmpegError(err),
{
    PlayerError::FfmpegError(err)
}

} // verus!
