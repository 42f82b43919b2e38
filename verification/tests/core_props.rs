use ffplay_core::frame::{Frame, PacketData, Plane, VideoData};
use ffplay_core::pixel::{av_to_sdl_pixel_format_mapper, DisplayPixelFormat, PixelFormat};
use ffplay_core::queue::BoundedQueue;
use ffplay_core::rational::{rescale, Rational};
use ffplay_core::viewport::letterbox;

#[test]
fn rescale_ticks_to_millis() {
    // 1 tick of a 1 s time base is 1000 ms.
    assert_eq!(rescale(1, Rational::new(1, 1), Rational::new(1, 1000)), Some(1000));
    // 25 fps: 1 tick of 1/25 s is 40 ms.
    assert_eq!(rescale(1, Rational::new(1, 25), Rational::new(1, 1000)), Some(40));
    assert_eq!(rescale(525, Rational::new(1, 25), Rational::new(1, 1000)), Some(21000));
    // 90 kHz ticks.
    assert_eq!(rescale(90000, Rational::new(1, 90000), Rational::new(1, 1000)), Some(1000));
    assert_eq!(rescale(0, Rational::new(1, 90000), Rational::new(1, 1000)), Some(0));
}

#[test]
fn rescale_rounds_toward_zero() {
    // 1 tick of 1/3 s is 333.33 ms: rounded toward zero.
    assert_eq!(rescale(1, Rational::new(1, 3), Rational::new(1, 1000)), Some(333));
    // The same magnitude negative also truncates toward zero.
    assert_eq!(rescale(-1, Rational::new(1, 3), Rational::new(1, 1000)), Some(-333));
    assert_eq!(rescale(-7, Rational::new(1, 2), Rational::new(1, 1000)), Some(-3500));
}

#[test]
fn rescale_overflow_is_none() {
    // The largest timestamp times 1000 does not fit an i64.
    assert_eq!(rescale(i64::MAX, Rational::new(1, 1), Rational::new(1, 1000)), None);
    assert_eq!(rescale(i64::MIN, Rational::new(1, 1), Rational::new(1, 1000)), None);
    // But it survives a rescale that shrinks it.
    assert_eq!(
        rescale(i64::MAX, Rational::new(1, 1000), Rational::new(1, 1)),
        Some(i64::MAX / 1000)
    );
}

#[test]
fn rescale_seek_target_to_backend_base() {
    // A seek target in stream units goes to the backend's microsecond
    // base rounding toward zero.
    assert_eq!(rescale(21000, Rational::new(1, 25), Rational::new(1, 1000000)), Some(840000000));
    assert_eq!(rescale(2000, Rational::new(1, 1), Rational::new(1, 1000000)), Some(2000000000));
}

#[test]
fn rescale_ntsc_time_base() {
    // A 1001/30000 s time base: 30 ticks are 1001 ms, truncated per
    // tick sum done in one step.
    assert_eq!(rescale(30, Rational::new(1001, 30000), Rational::new(1, 1000)), Some(1001));
    assert_eq!(rescale(1, Rational::new(1001, 30000), Rational::new(1, 1000)), Some(33));
}

#[test]
fn queue_is_fifo() {
    let mut q: BoundedQueue<u32> = BoundedQueue::new_with_capacity(3);
    assert!(q.is_empty());
    q.add(10);
    q.add(20);
    q.add(30);
    assert!(q.is_full());
    assert_eq!(q.len(), 3);
    assert_eq!(q.take(), 10);
    assert_eq!(q.take(), 20);
    q.add(40);
    assert_eq!(q.take(), 30);
    assert_eq!(q.take(), 40);
    assert!(q.is_empty());
}

#[test]
fn queue_clear_empties() {
    let mut q: BoundedQueue<u32> = BoundedQueue::new_with_capacity(2);
    q.add(1);
    q.add(2);
    q.clear();
    assert!(q.is_empty());
    assert_eq!(q.capacity(), 2);
    q.add(3);
    assert_eq!(q.take(), 3);
}

#[test]
fn queue_capacity_is_kept() {
    let mut q: BoundedQueue<u8> = BoundedQueue::new_with_capacity(60);
    for i in 0..60 {
        assert!(q.len() < q.capacity());
        q.add(i);
    }
    assert_eq!(q.len(), q.capacity());
    assert!(q.is_full());
}

#[test]
fn pixel_format_mapping_table() {
    assert_eq!(av_to_sdl_pixel_format_mapper(&PixelFormat::Yuv420p), DisplayPixelFormat::Iyuv);
    assert_eq!(av_to_sdl_pixel_format_mapper(&PixelFormat::Yuyv422), DisplayPixelFormat::Yuy2);
    assert_eq!(av_to_sdl_pixel_format_mapper(&PixelFormat::Uyvy422), DisplayPixelFormat::Uyvy);
    assert_eq!(av_to_sdl_pixel_format_mapper(&PixelFormat::Rgb24), DisplayPixelFormat::Rgb24);
}

#[test]
fn plane_counts_per_format() {
    assert_eq!(PixelFormat::Yuv420p.plane_count(), 3);
    assert_eq!(PixelFormat::Yuyv422.plane_count(), 1);
    assert_eq!(PixelFormat::Uyvy422.plane_count(), 1);
    assert_eq!(PixelFormat::Rgb24.plane_count(), 1);
}

#[test]
fn letterbox_exact_fit() {
    let v = letterbox(192, 108, 1920, 1080);
    assert_eq!((v.x, v.y, v.width, v.height), (0, 0, 1920, 1080));
}

#[test]
fn letterbox_wide_window_pillarboxes() {
    // A 4:3 video in a 16:9 window: full height, centred bars left and
    // right.
    let v = letterbox(640, 480, 1920, 1080);
    assert_eq!(v.height, 1080);
    assert_eq!(v.width, 1440);
    assert_eq!(v.x, (1920 - 1440) / 2);
    assert_eq!(v.y, 0);
}

#[test]
fn letterbox_tall_window_letterboxes() {
    // A 16:9 video in a square window: full width, centred bars above
    // and below.
    let v = letterbox(1920, 1080, 1000, 1000);
    assert_eq!(v.width, 1000);
    assert_eq!(v.height, 562);
    assert_eq!(v.x, 0);
    assert_eq!(v.y, (1000 - 562) / 2);
}

#[test]
fn letterbox_window_smaller_than_video() {
    let v = letterbox(100, 100, 30, 40);
    assert_eq!(v.width, 30);
    assert_eq!(v.height, 30);
    assert_eq!(v.x, 0);
    assert_eq!(v.y, 5);
}

#[test]
fn frame_planes_and_strides() {
    let mut f = Frame {
        pts: None,
        width: 4,
        height: 2,
        format: PixelFormat::Yuv420p,
        planes: vec![
            Plane { data: vec![0u8; 8], stride: 4 },
            Plane { data: vec![0u8; 2], stride: 2 },
            Plane { data: vec![0u8; 2], stride: 2 },
        ],
    };
    assert_eq!(f.planes(), 3);
    assert_eq!(f.stride(0), 4);
    assert_eq!(f.stride(1), 2);
    assert_eq!(f.data(0).len(), 8);
    f.set_pts(Some(7));
    assert_eq!(f.pts, Some(7));
}

#[test]
fn envelope_constructors_keep_fields() {
    let pd = PacketData::new(3, 1, Some(42), vec![1, 2, 3]);
    assert_eq!(pd.serial, 3);
    assert_eq!(pd.stream_index, 1);
    assert_eq!(pd.pts, Some(42));
    assert_eq!(pd.data, vec![1, 2, 3]);
    let f = Frame { pts: None, width: 0, height: 0, format: PixelFormat::Rgb24, planes: vec![] };
    let vd = VideoData::new(2, 1000, 40, f);
    assert_eq!(vd.serial, 2);
    assert_eq!(vd.frame_time, 1000);
    assert_eq!(vd.diff_to_prev_frame, 40);
}
