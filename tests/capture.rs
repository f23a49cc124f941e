use std::cell::Cell;
use tgif::encode::settings::GifSettings;
use tgif::encode::{codec_speed, frame_delay, prepare_frame, EncodeError, Encoder, Gif};
use tgif::fps::{FpsClock, TimeUnit};
use tgif::image::{CapturedFrame, Geometry, Image};
use tgif::record::{CaptureAction, CaptureError, Recorder, SessionState};

fn pixels(w: u32, h: u32, shade: u8) -> Vec<u8> {
    let mut data = Vec::new();
    for i in 0..(w * h) {
        data.extend_from_slice(&[shade, (i % 256) as u8, 255 - shade, 255]);
    }
    data
}

fn image(w: u32, h: u32, shade: u8) -> Image {
    Image::new(pixels(w, h, shade), true, Geometry::new(0, 0, w, h, None))
}

fn decode(bytes: &[u8]) -> Vec<u16> {
    let mut decoder = gif::DecodeOptions::new().read_info(bytes).unwrap();
    let mut delays = Vec::new();
    while let Some(frame) = decoder.read_next_frame().unwrap() {
        delays.push(frame.delay);
    }
    delays
}

#[test]
fn test_gif_mod() {
    let geometry = Geometry::new(0, 0, 1, 2, None);
    let settings = GifSettings::new(-1, 10, 1, false);
    let data = vec![0, 0, 0, 0, 255, 255, 255, 0];
    let reversed = vec![255, 255, 255, 0, 0, 0, 0, 0];
    let frames = vec![
        CapturedFrame::new(Image::new(data, false, geometry), 10),
        CapturedFrame::new(Image::new(reversed, false, geometry), 10),
    ];
    let gif = Gif::new(geometry, 10, settings).unwrap();
    let encoded = gif.save(frames, |_: usize| false).unwrap();
    assert_eq!(2, encoded.written);
    assert!(!encoded.stopped);
}

#[test]
fn clock_interval_and_pacing() {
    let clock = FpsClock::new(20);
    assert_eq!(clock.fps(), 20);
    assert_eq!(clock.target_interval(TimeUnit::Millisecond), 50);
    assert_eq!(clock.target_interval(TimeUnit::Microsecond), 50_000);
    assert_eq!(clock.target_interval(TimeUnit::Nanosecond), 50_000_000);
    assert_eq!(clock.target_interval(TimeUnit::Second), 0);
    assert_eq!(clock.pacing_sleep(20_000_000), 30_000_000);
    assert_eq!(clock.pacing_sleep(0), 50_000_000);
    assert_eq!(clock.pacing_sleep(70_000_000), 0);
    assert_eq!(clock.deviation(52_000_000), 2_000_000);
    assert_eq!(clock.deviation(49_000_000), -1_000_000);
}

#[test]
fn paced_ticks_do_not_drift() {
    let clock = FpsClock::new(20);
    let mut total: u64 = 0;
    for i in 0..200u64 {
        let elapsed = (i * 7_919) % 45_000_000;
        total += elapsed + clock.pacing_sleep(elapsed);
    }
    assert_eq!(total / 200, 50_000_000);
}

#[test]
fn codec_speed_follows_quality() {
    assert_eq!(codec_speed(1), 30);
    assert_eq!(codec_speed(100), 1);
    assert_eq!(codec_speed(75), 8);
    assert_eq!(codec_speed(50), 16);
    assert_eq!(codec_speed(0), 30);
    assert_eq!(codec_speed(255), 1);
    for q in 1..=100u8 {
        let s = codec_speed(q);
        assert!((1..=30).contains(&s));
        if q > 1 {
            assert!(s <= codec_speed(q - 1));
        }
    }
}

#[test]
fn frame_delay_is_rounded_hundredths() {
    assert_eq!(frame_delay(10), 10);
    assert_eq!(frame_delay(20), 5);
    assert_eq!(frame_delay(30), 3);
    assert_eq!(frame_delay(3), 33);
    assert_eq!(frame_delay(1), 100);
    assert_eq!(frame_delay(8), 13);
}

#[test]
fn bgra_is_reordered() {
    let img = Image::new(vec![1, 2, 3, 4, 5, 6, 7, 8], true, Geometry::new(0, 0, 2, 1, None));
    assert_eq!(img.get_rgba(), vec![3, 2, 1, 4, 7, 6, 5, 8]);
    let img = Image::new(vec![1, 2, 3, 4], false, Geometry::new(0, 0, 1, 1, None));
    assert_eq!(img.get_rgba(), vec![1, 2, 3, 4]);
}

#[test]
fn cancel_stops_capture_at_once() {
    let mut rec = Recorder::new(FpsClock::new(20));
    assert_eq!(rec.poll(false), CaptureAction::Capture);
    assert_eq!(rec.push_image(Some(image(2, 2, 1))), Ok(()));
    rec.ticked(0);
    assert_eq!(rec.poll(true), CaptureAction::Stop);
    assert_eq!(rec.state(), SessionState::Cancelled);
    assert_eq!(rec.poll(false), CaptureAction::Stop);
    assert_eq!(rec.frame_count(), 1);
    let result = rec.finish();
    assert!(result.cancelled);
    assert_eq!(result.error, None);
    assert_eq!(result.frames.len(), 1);
}

#[test]
fn cancel_before_any_frame_gives_nothing() {
    let mut rec = Recorder::new(FpsClock::new(20));
    assert_eq!(rec.poll(true), CaptureAction::Stop);
    let result = rec.finish();
    assert!(result.cancelled);
    assert!(result.frames.is_empty());
    let gif = Gif::new(Geometry::new(0, 0, 2, 2, None), 20, GifSettings::default()).unwrap();
    let err = gif.save(result.frames, |_: usize| false).err().unwrap();
    assert_eq!(err, EncodeError::EmptyResult);
}

#[test]
fn missing_image_fails_the_session() {
    let mut rec = Recorder::new(FpsClock::new(10));
    assert_eq!(rec.poll(false), CaptureAction::Capture);
    assert_eq!(rec.push_image(Some(image(1, 1, 0))), Ok(()));
    rec.ticked(0);
    assert_eq!(rec.poll(false), CaptureAction::Capture);
    assert_eq!(rec.push_image(None), Err(CaptureError::NoImage));
    assert_eq!(rec.poll(false), CaptureAction::Stop);
    let result = rec.finish();
    assert!(!result.cancelled);
    assert_eq!(result.error, Some(CaptureError::NoImage));
    assert_eq!(result.frames.len(), 1);
}

#[test]
fn late_ticks_shorten_the_delay() {
    let mut rec = Recorder::new(FpsClock::new(10));
    assert_eq!(rec.next_delay(), 10);
    rec.ticked(20_000_000);
    assert_eq!(rec.next_delay(), 8);
    rec.ticked(-5_000_000);
    assert_eq!(rec.next_delay(), 10);
    rec.ticked(500_000_000);
    assert_eq!(rec.next_delay(), 0);
}

#[test]
fn empty_sequence_is_an_error() {
    let gif = Gif::new(Geometry::new(0, 0, 2, 2, None), 10, GifSettings::default()).unwrap();
    let err = gif.save(Vec::new(), |_: usize| false).err().unwrap();
    assert_eq!(err, EncodeError::EmptyResult);
    assert_eq!(err.message(), "No frames found to save.");
}

#[test]
fn cancel_after_two_of_four_frames() {
    let frames: Vec<CapturedFrame> = (0..4).map(|i| CapturedFrame::new(image(3, 2, i * 40), 5)).collect();
    let gif = Gif::new(Geometry::new(0, 0, 3, 2, None), 20, GifSettings::default()).unwrap();
    let asked = Cell::new(0);
    let encoded = gif
        .save(frames, |i: usize| {
            asked.set(asked.get() + 1);
            i >= 2
        })
        .unwrap();
    assert_eq!(encoded.written, 2);
    assert_eq!(asked.get(), 3);
    assert!(encoded.stopped);
    assert_eq!(*encoded.bytes.last().unwrap(), 0x3B);
    assert_eq!(&encoded.bytes[..6], b"GIF89a");
    assert_eq!(decode(&encoded.bytes).len(), 2);
}

#[test]
fn record_three_frames_and_encode() {
    let mut rec = Recorder::new(FpsClock::new(10));
    for i in 0..3u8 {
        assert_eq!(rec.poll(false), CaptureAction::Capture);
        assert_eq!(rec.push_image(Some(image(4, 3, i * 60))), Ok(()));
        rec.ticked(300_000);
    }
    assert_eq!(rec.poll(true), CaptureAction::Stop);
    let result = rec.finish();
    assert_eq!(result.frames.len(), 3);
    for f in &result.frames {
        assert!(f.delay >= 9 && f.delay <= 11);
    }
    let settings = GifSettings::new(-1, 75, 1, false);
    let gif = Gif::new(Geometry::new(0, 0, 4, 3, None), 10, settings).unwrap();
    let encoded = gif.save(result.frames, |_: usize| false).unwrap();
    assert_eq!(encoded.written, 3);
    assert!(!encoded.stopped);
    assert_eq!(&encoded.bytes[..6], b"GIF89a");
    assert_eq!(decode(&encoded.bytes), vec![10, 10, 10]);
}

#[test]
fn invalid_sizes_are_rejected() {
    let settings = GifSettings::default();
    assert!(Gif::new(Geometry::new(0, 0, 0, 2, None), 10, settings).is_ok());
    assert_eq!(Gif::new(Geometry::new(0, 0, 2, 70_000, None), 10, settings).err(), Some(EncodeError::InvalidGeometry));
    assert_eq!(Gif::new(Geometry::new(0, 0, 70_000, 2, None), 10, settings).err(), Some(EncodeError::InvalidGeometry));
    let gif = Gif::new(Geometry::new(0, 0, 2, 2, None), 10, settings).unwrap();
    let bad = CapturedFrame::new(Image::new(vec![0; 5], false, Geometry::new(0, 0, 2, 2, None)), 10);
    assert_eq!(gif.save(vec![bad], |_: usize| false).err(), Some(EncodeError::InvalidFrame));
}

#[test]
fn finite_repeat_is_written() {
    let settings = GifSettings::new(3, 75, 1, false);
    let gif = Gif::new(Geometry::new(0, 0, 1, 1, None), 10, settings).unwrap();
    let frames = vec![CapturedFrame::new(image(1, 1, 9), 10)];
    let encoded = gif.save(frames, |_: usize| false).unwrap();
    let bytes = &encoded.bytes;
    let pos = bytes.windows(11).position(|w| w == b"NETSCAPE2.0").unwrap();
    assert_eq!(bytes[pos + 13], 3);
    assert_eq!(bytes[pos + 14], 0);
}

#[test]
fn frames_are_prepared_for_the_writer() {
    let frame = CapturedFrame::new(Image::new(vec![1, 2, 3, 4, 5, 6, 7, 8], true, Geometry::new(0, 0, 1, 2, None)), 3);
    let data = prepare_frame(&frame, 75, 10).unwrap();
    assert_eq!((data.width, data.height), (1, 2));
    assert_eq!(data.pixels, vec![3, 2, 1, 4, 7, 6, 5, 8]);
    assert_eq!(data.speed, 8);
    assert_eq!(data.delay, 10);
    let short = CapturedFrame::new(Image::new(vec![1, 2, 3], true, Geometry::new(0, 0, 1, 1, None)), 3);
    assert!(prepare_frame(&short, 75, 10).is_none());
    let empty = CapturedFrame::new(Image::new(Vec::new(), true, Geometry::new(0, 0, 0, 1, None)), 3);
    assert_eq!(prepare_frame(&empty, 75, 10).unwrap().pixels.len(), 0);
    let wide = CapturedFrame::new(Image::new(Vec::new(), true, Geometry::new(0, 0, 70_000, 0, None)), 3);
    assert!(prepare_frame(&wide, 75, 10).is_none());
}

#[test]
fn output_starts_with_header_and_loop() {
    let gif = Gif::new(Geometry::new(0, 0, 3, 2, None), 10, GifSettings::default()).unwrap();
    let frames = vec![CapturedFrame::new(image(3, 2, 7), 10)];
    let bytes = gif.save(frames, |_: usize| false).unwrap().bytes;
    assert_eq!(&bytes[..19], &[0x47, 0x49, 0x46, 0x38, 0x39, 0x61, 3, 0, 2, 0, 0x80, 0, 0, 0, 0, 0, 0, 0, 0]);
    let ext = [0x21, 0xFF, 11, b'N', b'E', b'T', b'S', b'C', b'A', b'P', b'E', b'2', b'.', b'0', 3, 1, 0, 0, 0];
    assert_eq!(&bytes[19..38], &ext);
    assert_eq!(&bytes[38..41], &[0x21, 0xF9, 4]);
    assert_eq!(&bytes[42..44], &[10, 0]);
    assert_eq!(bytes[46], 0x2C);
    assert_eq!(&bytes[51..55], &[3, 0, 2, 0]);
    assert_eq!(*bytes.last().unwrap(), 0x3B);
}

#[test]
fn oversized_or_zero_repeat_writes_no_loop() {
    let gif = Gif::new(Geometry::new(0, 0, 1, 1, None), 10, GifSettings::new(70_000, 75, 1, false)).unwrap();
    let bytes = gif.save(vec![CapturedFrame::new(image(1, 1, 9), 10)], |_: usize| false).unwrap().bytes;
    assert!(bytes.windows(11).position(|w| w == b"NETSCAPE2.0").is_none());
    let gif = Gif::new(Geometry::new(0, 0, 1, 1, None), 10, GifSettings::new(0, 75, 1, false)).unwrap();
    let bytes = gif.save(vec![CapturedFrame::new(image(1, 1, 9), 10)], |_: usize| false).unwrap().bytes;
    assert!(bytes.windows(11).position(|w| w == b"NETSCAPE2.0").is_none());
}

#[test]
fn zero_sized_gif_is_written() {
    let gif = Gif::new(Geometry::new(0, 0, 0, 0, None), 10, GifSettings::default()).unwrap();
    let frames = vec![CapturedFrame::new(Image::new(Vec::new(), true, Geometry::new(0, 0, 0, 0, None)), 10)];
    let encoded = gif.save(frames, |_: usize| false).unwrap();
    assert_eq!(encoded.written, 1);
    assert_eq!(&encoded.bytes[..10], &[0x47, 0x49, 0x46, 0x38, 0x39, 0x61, 0, 0, 0, 0]);
    assert_eq!(*encoded.bytes.last().unwrap(), 0x3B);
}

#[test]
fn cancel_comes_before_a_later_bad_frame() {
    let gif = Gif::new(Geometry::new(0, 0, 2, 2, None), 10, GifSettings::default()).unwrap();
    let bad = CapturedFrame::new(Image::new(vec![0; 5], false, Geometry::new(0, 0, 2, 2, None)), 10);
    let frames = vec![CapturedFrame::new(image(2, 2, 1), 10), bad];
    let encoded = gif.save(frames, |i: usize| i >= 1).unwrap();
    assert_eq!(encoded.written, 1);
    assert!(encoded.stopped);
}
