use ffplay_core::channel;
use ffplay_core::codec::CodecError;
use ffplay_core::file_decoder::error::FileDecoderError as FileDecoderErrorKind;
use ffplay_core::file_decoder::{
    FileDecoderBuilder, FileDecoderError, StreamInfo, FRAME_QUEUE_SIZE, PACKET_QUEUE_SIZE,
};
use ffplay_core::pixel::PixelFormat;
use ffplay_core::player::error::to_player_error;
use ffplay_core::player::{Player, PlayerError};
use ffplay_core::rational::Rational;

fn probed() -> StreamInfo {
    StreamInfo { stream_index: 2, time_base: Rational::new(1, 25), width: 1280, height: 720 }
}

#[test]
fn builder_defaults_and_setters() {
    let b = FileDecoderBuilder::new("clip.mkv".to_string());
    let fd = b.build().unwrap();
    assert_eq!(fd.pixel_format(), PixelFormat::Yuv420p);
    assert_eq!(fd.width(), 0);
    assert_eq!(fd.height(), 0);
    assert_eq!(fd.uri, "clip.mkv");
    let mut b2 = FileDecoderBuilder::new("clip.mkv".to_string());
    b2.pixel_format(PixelFormat::Rgb24).uri("other.mkv".to_string());
    let fd2 = b2.build().unwrap();
    assert_eq!(fd2.pixel_format(), PixelFormat::Rgb24);
    assert_eq!(fd2.uri, "other.mkv");
}

#[test]
fn init_prepares_workers_and_queues() {
    let mut fd = FileDecoderBuilder::new("clip.mkv".to_string()).build().unwrap();
    fd.init(&probed()).unwrap();
    assert_eq!(fd.width(), 1280);
    assert_eq!(fd.height(), 720);
    assert_eq!(fd.seek_serial, 0);
    let w = fd.start().unwrap();
    assert_eq!(w.demuxer.state.stream_index, 2);
    assert_eq!(w.demuxer.state.seek_serial, 0);
    assert_eq!(w.demuxer.state.time_base, Rational::new(1, 25));
    assert_eq!(w.decoder.state.seek_serial, 0);
    assert!(!w.decoder.state.sent_eof);
    assert_eq!(w.packet_queue.capacity(), PACKET_QUEUE_SIZE);
    assert_eq!(w.video_queue.capacity(), FRAME_QUEUE_SIZE);
    assert!(w.packet_queue.is_empty());
    assert!(w.video_queue.is_empty());
}

#[test]
fn seek_fans_out_epoch_then_target() {
    let mut fd = FileDecoderBuilder::new("clip.mkv".to_string()).build().unwrap();
    fd.init(&probed()).unwrap();
    let w = fd.start().unwrap();
    assert_eq!(fd.seek(100), Ok(1));
    assert_eq!(fd.seek(-50), Ok(2));
    assert_eq!(fd.seek_serial, 2);
    // Both workers receive the epochs in issue order, and the demuxer
    // the matching targets.
    assert_eq!(channel::try_recv_u64(&w.decoder.serial_receiver), Some(1));
    assert_eq!(channel::try_recv_u64(&w.decoder.serial_receiver), Some(2));
    assert_eq!(channel::try_recv_u64(&w.decoder.serial_receiver), None);
    assert_eq!(channel::try_recv_u64(&w.demuxer.serial_receiver), Some(1));
    assert_eq!(channel::try_recv_u64(&w.demuxer.serial_receiver), Some(2));
    assert_eq!(channel::try_recv_i64(&w.demuxer.seek_receiver), Some(100));
    assert_eq!(channel::try_recv_i64(&w.demuxer.seek_receiver), Some(-50));
    assert_eq!(channel::try_recv_i64(&w.demuxer.seek_receiver), None);
}

#[test]
fn workers_poll_the_issued_commands() {
    let mut fd = FileDecoderBuilder::new("clip.mkv".to_string()).build().unwrap();
    fd.init(&probed()).unwrap();
    let mut w = fd.start().unwrap();
    // Nothing pending yet.
    assert_eq!(w.demuxer.poll_commands(), Ok(None));
    assert_eq!(w.decoder.poll_serial(), None);
    assert_eq!(fd.seek(21000), Ok(1));
    // The decoder adopts the new epoch and restarts its timing.
    assert_eq!(w.decoder.poll_serial(), Some(1));
    assert_eq!(w.decoder.state.seek_serial, 1);
    assert!(w.decoder.state.last_frame_time.is_none());
    // The demuxer adopts the epoch and rescales the target to the
    // backend's time base (1/25 stream base: times 40000).
    assert_eq!(w.demuxer.poll_commands(), Ok(Some(21000 * 40000)));
    assert_eq!(w.demuxer.state.seek_serial, 1);
    // Drained again.
    assert_eq!(w.demuxer.poll_commands(), Ok(None));
    assert_eq!(w.decoder.poll_serial(), None);
}

#[test]
fn seek_after_workers_gone_signals_shutdown() {
    let mut fd = FileDecoderBuilder::new("clip.mkv".to_string()).build().unwrap();
    fd.init(&probed()).unwrap();
    let w = fd.start().unwrap();
    drop(w);
    // The receiving ends are gone: the failed send is the shutdown
    // signal, carrying the undelivered epoch — not a fatal failure.
    assert_eq!(fd.seek(5), Err(FileDecoderErrorKind::SendError(1)));
    // The epoch was still bumped before the sends.
    assert_eq!(fd.seek_serial, 1);
}

#[test]
fn stop_releases_the_lifetime_flag() {
    let mut fd = FileDecoderBuilder::new("clip.mkv".to_string()).build().unwrap();
    fd.init(&probed()).unwrap();
    let weak = std::sync::Arc::downgrade(fd.running.as_ref().unwrap());
    assert!(weak.upgrade().is_some());
    fd.stop();
    assert!(fd.running.is_none());
    // A worker holding only the weak observer sees the controller
    // gone.
    assert!(weak.upgrade().is_none());
}

#[test]
fn player_lifecycle() {
    let mut pl = Player::new();
    assert_eq!(pl.width(), 0);
    assert_eq!(pl.height(), 0);
    assert!(!pl.paused);
    pl.start(&"a.mkv".to_string(), 640, 480).unwrap();
    assert_eq!(pl.width(), 640);
    assert_eq!(pl.height(), 480);
    assert_eq!(pl.uri, "a.mkv");
    assert!(pl.running.is_some());
    pl.set_paused(true);
    assert!(pl.paused);
    pl.set_paused(false);
    assert!(!pl.paused);
    pl.stop().unwrap();
    assert!(pl.running.is_none());
}

#[test]
fn player_error_wraps_codec_error() {
    assert_eq!(to_player_error(CodecError::Eof), PlayerError::FfmpegError(CodecError::Eof));
    assert_eq!(
        to_player_error(CodecError::Other { errno: 11 }),
        PlayerError::FfmpegError(CodecError::Other { errno: 11 })
    );
}

#[test]
fn error_messages_identify_the_stage() {
    assert_eq!(FileDecoderError.message(), "File decoder error");
    assert_eq!(
        FileDecoderErrorKind::FfmpegError(CodecError::StreamNotFound).message(),
        "File decoder error ffmpeg: stream not found"
    );
    assert_eq!(
        FileDecoderErrorKind::FfmpegError(CodecError::Other { errno: 5 }).message(),
        "File decoder error ffmpeg: backend failure"
    );
    assert_eq!(
        FileDecoderErrorKind::SendError(3).message(),
        "File decoder error send error: worker gone"
    );
    assert_eq!(
        PlayerError::FfmpegError(CodecError::Eof).message(),
        "PlayerError: end of stream"
    );
    assert_eq!(
        PlayerError::FfmpegError(CodecError::Other { errno: 9 }).message(),
        "PlayerError: backend failure"
    );
}

#[test]
fn decoder_error_kinds_are_distinct() {
    let a = FileDecoderErrorKind::FfmpegError(CodecError::StreamNotFound);
    let b = FileDecoderErrorKind::SendError(1);
    assert_ne!(a, b);
    assert_eq!(a, FileDecoderErrorKind::FfmpegError(CodecError::StreamNotFound));
}
