use ffplay_core::decoder::DecoderState;
use ffplay_core::demuxer::DemuxerState;
use ffplay_core::file_decoder::FileDecoderError;
use ffplay_core::pixel::PixelFormat;
use ffplay_core::presenter::{EventState, PresenterState, SEEK_STEP_MS};
use ffplay_core::rational::Rational;

#[test]
fn decoder_first_frame_of_epoch_has_zero_delta() {
    let mut d = DecoderState::new(Rational::new(1, 1), PixelFormat::Yuv420p);
    assert_eq!(d.on_decoded_frame(Some(2)), Some((2000, 0)));
    assert_eq!(d.last_frame_time, Some(2000));
    // After an epoch change the delta restarts at 0, whatever the
    // timestamp.
    d.on_new_serial(1);
    assert_eq!(d.last_frame_time, None);
    assert_eq!(d.on_decoded_frame(Some(9)), Some((9000, 0)));
}

#[test]
fn decoder_deltas_are_differences() {
    let mut d = DecoderState::new(Rational::new(1, 25), PixelFormat::Yuv420p);
    assert_eq!(d.on_decoded_frame(Some(0)), Some((0, 0)));
    assert_eq!(d.on_decoded_frame(Some(25)), Some((1000, 1000)));
    assert_eq!(d.on_decoded_frame(Some(26)), Some((1040, 40)));
    assert_eq!(d.on_decoded_frame(Some(26)), Some((1040, 0)));
}

#[test]
fn decoder_missing_timestamp_reads_as_zero() {
    let mut d = DecoderState::new(Rational::new(1, 1), PixelFormat::Yuv420p);
    assert_eq!(d.on_decoded_frame(None), Some((0, 0)));
}

#[test]
fn decoder_rejects_untimeable_frames() {
    let mut d = DecoderState::new(Rational::new(1, 1), PixelFormat::Yuv420p);
    // A negative timestamp has no millisecond time.
    assert_eq!(d.on_decoded_frame(Some(-1)), None);
    // A timestamp whose millisecond value overflows has none either.
    assert_eq!(d.on_decoded_frame(Some(i64::MAX)), None);
    // A frame before the previous one of the same epoch is rejected,
    // and the state is unchanged by the rejection.
    assert_eq!(d.on_decoded_frame(Some(5)), Some((5000, 0)));
    assert_eq!(d.on_decoded_frame(Some(4)), None);
    assert_eq!(d.last_frame_time, Some(5000));
}

#[test]
fn decoder_drops_stale_packets_before_submission() {
    let mut d = DecoderState::new(Rational::new(1, 1), PixelFormat::Yuv420p);
    d.on_new_serial(2);
    let stale = ffplay_core::frame::PacketData::new(1, 0, Some(0), vec![]);
    let fresh = ffplay_core::frame::PacketData::new(2, 0, Some(0), vec![]);
    assert!(!d.should_submit(&stale));
    assert!(d.should_submit(&fresh));
}

#[test]
fn decoder_eos_mark() {
    let mut d = DecoderState::new(Rational::new(1, 1), PixelFormat::Yuv420p);
    assert!(!d.sent_eof);
    d.on_eos_packet();
    assert!(d.sent_eof);
    // A new epoch clears the mark.
    d.on_new_serial(1);
    assert!(!d.sent_eof);
}

#[test]
fn demuxer_filters_to_selected_stream() {
    let dmx = DemuxerState::new(1, Rational::new(1, 25));
    assert!(dmx.on_packet(0, Some(5), vec![]).is_none());
    let pd = dmx.on_packet(1, Some(5), vec![9]).unwrap();
    assert_eq!(pd.serial, 0);
    assert_eq!(pd.stream_index, 1);
    assert_eq!(pd.pts, Some(5));
    assert_eq!(pd.data, vec![9]);
}

#[test]
fn demuxer_command_poll_epoch_then_seek() {
    let mut dmx = DemuxerState::new(0, Rational::new(1, 25));
    // Nothing pending: no seek, epoch kept.
    assert_eq!(dmx.on_commands(None, None), Ok(None));
    assert_eq!(dmx.seek_serial, 0);
    // An epoch alone is adopted.
    assert_eq!(dmx.on_commands(Some(1), None), Ok(None));
    assert_eq!(dmx.seek_serial, 1);
    // An epoch with a seek rescales the target to the backend's
    // microsecond base.
    assert_eq!(dmx.on_commands(Some(2), Some(21000)), Ok(Some(840000000)));
    assert_eq!(dmx.seek_serial, 2);
}

#[test]
fn demuxer_unrepresentable_seek_target_is_fatal() {
    let mut dmx = DemuxerState::new(0, Rational::new(1, 1));
    assert_eq!(dmx.on_commands(Some(1), Some(i64::MAX)), Err(FileDecoderError));
    // The epoch was still adopted before the failure.
    assert_eq!(dmx.seek_serial, 1);
}

#[test]
fn seek_to_current_time_is_noop_in_output() {
    // Playing at 1 s time base up to 2000 ms, then seeking to the
    // current last frame time: the backend lands on the keyframe at or
    // before the target, and the next frame of the new epoch carries
    // the same output time.
    let mut dmx = DemuxerState::new(0, Rational::new(1, 1));
    let mut dec = DecoderState::new(Rational::new(1, 1), PixelFormat::Yuv420p);
    assert_eq!(dec.on_decoded_frame(Some(2)), Some((2000, 0)));
    let target = dmx.on_commands(Some(1), Some(2000)).unwrap().unwrap();
    assert_eq!(target, 2000000000);
    dec.on_new_serial(1);
    // The keyframe at or before 2000 ms carries timestamp 2 again.
    assert_eq!(dec.on_decoded_frame(Some(2)), Some((2000, 0)));
}

#[test]
fn presenter_waits_only_while_paused_without_refresh() {
    let mut p = PresenterState::new(0);
    assert!(!p.wait_for_event());
    p.on_pause_toggle(10);
    assert!(p.paused);
    assert!(p.wait_for_event());
    p.on_seek_issued(20000, 1);
    assert!(p.need_update);
    assert!(!p.wait_for_event());
}

#[test]
fn presenter_seek_targets_step_from_last_frame() {
    let mut p = PresenterState::new(0);
    p.on_seek_issued(30000, 1);
    assert_eq!(p.last_pts, 30000);
    assert_eq!(p.seek_target(true), 30000 + SEEK_STEP_MS as i64);
    assert_eq!(p.seek_target(false), 30000 - SEEK_STEP_MS as i64);
    // A target before the start of the stream reads as its start.
    p.on_seek_issued(-5000, 2);
    assert_eq!(p.last_pts, 0);
}

#[test]
fn presenter_draws_only_current_epoch() {
    let mut p = PresenterState::new(0);
    assert!(p.should_draw(0));
    assert!(!p.should_draw(1));
    p.on_seek_issued(20000, 3);
    assert!(p.should_draw(3));
    assert!(!p.should_draw(2));
    assert!(!p.should_draw(4));
}

#[test]
fn presenter_paces_from_anchor_plus_delta() {
    let mut p = PresenterState::new(100);
    // Target in the future: drawn at the target.
    assert_eq!(p.present_frame(0, 50, 100), 150);
    assert_eq!(p.presentation_time_ms, 150);
    // Target in the past: drawn immediately, no catch-up.
    assert_eq!(p.present_frame(40, 10, 300), 300);
    assert_eq!(p.presentation_time_ms, 160);
    assert_eq!(p.last_pts, 40);
}

#[test]
fn pause_then_unpause_reanchors_pacing() {
    let mut p = PresenterState::new(0);
    assert_eq!(p.present_frame(0, 0, 0), 0);
    // Pause at 500 ms, unpause at 9000 ms: the anchor becomes the
    // unpause instant — the pause gap is never caught up.
    p.on_pause_toggle(500);
    assert!(p.paused);
    p.on_pause_toggle(9000);
    assert!(!p.paused);
    assert_eq!(p.presentation_time_ms, 9000);
    // The first post-unpause frame is due one delta past the unpause
    // instant; an already-due frame is drawn immediately.
    assert_eq!(p.present_frame(1000, 1000, 10500), 10500);
    // Subsequent frames keep their delta spacing from the new anchor.
    assert_eq!(p.present_frame(2000, 1000, 10500), 11000);
    assert_eq!(p.present_frame(3000, 1000, 10500), 12000);
}

#[test]
fn event_states_cover_the_input_set() {
    let evs = [
        EventState::Quit,
        EventState::Pause,
        EventState::SeekForward,
        EventState::SeekBackward,
        EventState::Resize,
    ];
    assert_eq!(evs.len(), 5);
    assert_ne!(EventState::Quit, EventState::Pause);
}
