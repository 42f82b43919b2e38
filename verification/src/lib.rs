//! Core of a minimal video player: a two-stage decoding pipeline that
//! turns a demuxed packet stream into timed picture frames and paces
//! their presentation, with epoch-based seek invalidation, bounded-queue
//! backpressure and orderly end-of-stream propagation.

pub mod channel;
pub mod codec;
pub mod decoder;
pub mod demuxer;
pub mod file_decoder;
pub mod frame;
pub mod pipeline;
pub mod pixel;
pub mod player;
pub mod presenter;
pub mod queue;
pub mod rational;
pub mod viewport;

pub use rational::Rational;
