//! A plain model of the codec backend's control signals.
//!
//! The backend's end-of-file and needs-more-input conditions are not
//! errors to the pipeline: they steer the decoder loop. The core reads
//! only these discriminators, so they are carried as plain values;
//! everything else about a backend error is opaque.

use vstd::prelude::*;

verus! {

/// What the codec backend reports where it does not return a value.
#[derive(Clone, Copy, Debug, PartialEq, Eq, Structural)]
pub enum CodecError {
    /// The container has no stream of the wanted kind.
    StreamNotFound,
    /// No more output will come on the current input.
    Eof,
    /// The decoder needs more input before it can emit a frame.
    Eagain,
    /// Any other backend failure, by its error number: fatal.
    Other { errno: i32 },
}

/// The outcome of asking the backend for one decoded frame. Needing
/// more input and end of stream are control signals, not errors; any
/// other answer is fatal to the decoding stage.
#[derive(Clone, Copy, Debug, PartialEq, Eq, Structural)]
pub enum ReceiveStatus {
    /// A frame was delivered, carrying this timestamp.
    Frame { pts: Option<i64> },
    /// The decoder needs more input.
    Eagain,
    /// End of stream: no frame will follow.
    Eof,
    /// Any other backend failure, by its error number.
    Failed { errno: i32 },
}

} // verus!
