//! Streaming GIF encoding of a captured frame sequence.
use vstd::prelude::*;
use crate::image::{rgba_of, CapturedFrame, Geometry};

pub mod settings;

use self::settings::GifSettings;

verus! {

/// An open `gif::Encoder` that writes into a byte buffer and was started
/// without a global palette. Its buffer is seen through [`writer_bytes`].
#[verifier::external_body]
pub struct GifWriter {
    inner: ::gif::Encoder<Vec<u8>>,
}

/// A frame made by `gif::Frame::from_rgba_speed` and given its delay, as
/// [`rgba_frame`] alone builds it. The values it was made from are seen
/// through [`frame_values`].
#[verifier::external_body]
pub struct RgbaFrame {
    inner: ::gif::Frame<'static>,
}

/// The gif crate's encoding error, opaque: it is only told apart from
/// success.
#[verifier::external_type_specification]
#[verifier::external_body]
pub struct ExGifEncodingError(::gif::EncodingError);

/// An I/O error of std, opaque: it is only told apart from success.
#[verifier::external_type_specification]
#[verifier::external_body]
pub struct ExIoError(std::io::Error);

/// What the byte buffer of a GIF writer holds.
pub uninterp spec fn writer_bytes(w: GifWriter) -> Seq<u8>;

/// The width, height, red-green-blue-alpha pixels, codec speed and delay a
/// frame was made from.
pub uninterp spec fn frame_values(f: RgbaFrame) -> (u16, u16, Seq<u8>, i32, u16);

/// What `gif::Encoder::write_frame` appends, on a writer without a global
/// palette, for the frame `gif::Frame::from_rgba_speed` makes from these
/// values with this delay.
pub uninterp spec fn image_block(width: u16, height: u16, pixels: Seq<u8>, speed: i32, delay: u16) -> Seq<u8>;

/// A 16-bit value in little-endian byte order.
pub open spec fn le16(v: u16) -> Seq<u8> {
    seq![(v % 256) as u8, (v / 256) as u8]
}

/// The start of a GIF of the given size without a global palette: the
/// `GIF89a` signature, the logical screen descriptor, and the two empty
/// palette entries the format asks for.
pub open spec fn screen_header(width: u16, height: u16) -> Seq<u8> {
    seq![0x47u8, 0x49, 0x46, 0x38, 0x39, 0x61] + le16(width) + le16(height) + seq![
        0x80u8,
        0,
        0,
        0,
        0,
        0,
        0,
        0,
        0,
    ]
}

/// The loop extension for a loop count, `None` meaning an endless loop: none
/// at all for zero, which plays the animation once.
pub open spec fn loop_extension(count: Option<u16>) -> Seq<u8> {
    let n: u16 = match count {
        Some(n) => n,
        None => 0,
    };
    if count == Some(0u16) {
        Seq::empty()
    } else {
        seq![0x21u8, 0xFF, 11] + seq![
            0x4Eu8,
            0x45,
            0x54,
            0x53,
            0x43,
            0x41,
            0x50,
            0x45,
            0x32,
            0x2E,
            0x30,
        ] + seq![3u8, 1] + le16(n) + seq![0u8]
    }
}

/// An image block begins with a graphic control extension carrying the
/// delay, followed by the image descriptor at the origin with the frame's
/// size.
pub open spec fn block_head(b: Seq<u8>, width: u16, height: u16, delay: u16) -> bool {
    &&& b.len() >= 17
    &&& b[0] == 0x21 && b[1] == 0xF9 && b[2] == 4
    &&& b.subrange(4, 6) == le16(delay)
    &&& b[7] == 0
    &&& b[8] == 0x2C
    &&& b.subrange(9, 13) == seq![0u8, 0, 0, 0]
    &&& b.subrange(13, 15) == le16(width)
    &&& b.subrange(15, 17) == le16(height)
}

/// Relies on gif::Encoder::new: with an empty palette it writes the
/// signature, the screen descriptor and two empty palette entries, and into
/// a byte buffer this cannot fail.
#[verifier::external_body]
fn open_encoder(width: u16, height: u16) -> (r: Result<GifWriter, ::gif::EncodingError>)
    ensures
        r is Ok,
        r matches Ok(w) ==> writer_bytes(w) == screen_header(width, height),
{
    ::gif::Encoder::new(Vec::new(), width, height, &[]).map(|inner| GifWriter { inner })
}

/// Relies on gif::Encoder::set_repeat: appends the loop extension, a finite
/// count for `Some`, an endless loop for `None`; into a byte buffer this
/// cannot fail.
#[verifier::external_body]
fn set_loop(encoder: &mut GifWriter, count: Option<u16>) -> (r: Result<(), ::gif::EncodingError>)
    ensures
        r is Ok,
        writer_bytes(*final(encoder)) == writer_bytes(*old(encoder)) + loop_extension(count),
{
    encoder.inner.set_repeat(
        match count {
            Some(n) => ::gif::Repeat::Finite(n),
            None => ::gif::Repeat::Infinite,
        },
    )
}

/// Relies on gif::Frame::from_rgba_speed: builds a paletted frame from
/// red, green, blue, alpha pixels; it panics unless there are four bytes per
/// pixel and the speed lies in 1..=30. The display delay is then set.
#[verifier::external_body]
fn rgba_frame(width: u16, height: u16, pixels: Vec<u8>, speed: i32, delay: u16) -> (r: RgbaFrame)
    requires
        pixels@.len() == 4 * (width as nat) * (height as nat),
        1 <= speed <= 30,
    ensures
        frame_values(r) == (width, height, pixels@, speed, delay),
{
    let mut pixels = pixels;
    let mut inner = ::gif::Frame::from_rgba_speed(width, height, &mut pixels, speed);
    inner.delay = delay;
    RgbaFrame { inner }
}

/// Relies on gif::Encoder::write_frame: appends the graphic control
/// extension, the image descriptor and the compressed pixels of the frame.
/// A frame from `from_rgba_speed` has a palette and one index per pixel,
/// the two things it checks, and writes into a byte buffer cannot fail.
#[verifier::external_body]
fn write_frame(encoder: &mut GifWriter, frame: &RgbaFrame) -> (r: Result<(), ::gif::EncodingError>)
    ensures
        r is Ok,
        writer_bytes(*final(encoder)) == writer_bytes(*old(encoder)) + image_block(
            frame_values(*frame).0,
            frame_values(*frame).1,
            frame_values(*frame).2,
            frame_values(*frame).3,
            frame_values(*frame).4,
        ),
        block_head(
            writer_bytes(*final(encoder)).skip(writer_bytes(*old(encoder)).len() as int),
            frame_values(*frame).0,
            frame_values(*frame).1,
            frame_values(*frame).4,
        ),
{
    encoder.inner.write_frame(&frame.inner)
}

/// Relies on gif::Encoder::into_inner: appends the trailer byte and hands
/// back the buffer; into a byte buffer this cannot fail.
#[verifier::external_body]
fn finish(encoder: GifWriter) -> (r: Result<Vec<u8>, std::io::Error>)
    ensures
        r is Ok,
        r matches Ok(b) ==> b@ == writer_bytes(encoder) + seq![0x3Bu8],
{
    encoder.inner.into_inner()
}

/// `a / b` rounded to the nearest integer, halves up.
pub open spec fn round_div(a: int, b: int) -> int
    recommends
        b > 0,
{
    (2 * a + b) / (2 * b)
}

/// The rational `a / b` rounded to the nearest integer, halves up, for a
/// divisor of either sign.
pub open spec fn round_ratio(a: int, b: int) -> int
    recommends
        b != 0,
{
    if b > 0 {
        round_div(a, b)
    } else {
        round_div(-a, -b)
    }
}

/// `value` mapped linearly from the range `from` onto the range `to`,
/// rounded to the nearest integer.
pub open spec fn mapped(value: int, from: (int, int), to: (int, int)) -> int {
    to.0 + round_ratio((value - from.0) * (to.1 - to.0), from.1 - from.0)
}

/// The floor of `n / d` for a positive `d`, in machine integers.
fn floor_div(n: i128, d: i128) -> (r: i128)
    requires
        0 < d <= 0x1_0000_0000_0000_0000_0000,
        -0x1_0000_0000_0000_0000_0000 <= n <= 0x1_0000_0000_0000_0000_0000,
    ensures
        r == (n as int) / (d as int),
        n >= 0 ==> 0 <= r <= n,
        n < 0 ==> n <= r < 0,
{
    if n >= 0 {
        assert((n as int) / (d as int) <= n) by (nonlinear_arith)
            requires
                n >= 0,
                d > 0,
        ;
        n / d
    } else {
        let m = -n;
        let c = (m + d - 1) / d;
        assert(-c == (n as int) / (d as int) && 0 < c <= m) by (nonlinear_arith)
            requires
                m == -n,
                m > 0,
                d > 0,
                c == (m + d - 1) / (d as int),
        ;
        -c
    }
}

/// `value` mapped linearly from `from_range` onto `to_range`, rounded to the
/// nearest integer (halves up).
pub fn map_range(value: i32, from_range: (i32, i32), to_range: (i32, i32)) -> (r: i128)
    requires
        from_range.0 != from_range.1,
    ensures
        r == mapped(value as int, (from_range.0 as int, from_range.1 as int), (to_range.0 as int, to_range.1 as int)),
{
    let x: i128 = value as i128 - from_range.0 as i128;
    let y: i128 = to_range.1 as i128 - to_range.0 as i128;
    assert(-0x2_0000_0000 * 0x2_0000_0000 <= x * y <= 0x2_0000_0000 * 0x2_0000_0000) by (nonlinear_arith)
        requires
            -0x2_0000_0000 <= x <= 0x2_0000_0000,
            -0x2_0000_0000 <= y <= 0x2_0000_0000,
    ;
    let mut a: i128 = x * y;
    let mut b: i128 = from_range.1 as i128 - from_range.0 as i128;
    if b < 0 {
        a = -a;
        b = -b;
    }
    let q = floor_div(2 * a + b, 2 * b);
    to_range.0 as i128 + q
}

/// `quality` moved into 1..=100.
pub open spec fn clamp_quality(quality: int) -> int {
    if quality < 1 {
        1
    } else if quality > 100 {
        100
    } else {
        quality
    }
}

/// The codec speed for a quality in 1..=100: thirty less the quality mapped
/// from 1..100 onto 0..29, rounded. Higher quality means a slower, more
/// careful palette choice.
pub open spec fn speed_for_quality(quality: int) -> int {
    30 - mapped(quality, (1, 100), (0, 29))
}

/// The display delay of a frame at `fps` frames per second, in hundredths of
/// a second, rounded.
pub open spec fn delay_for_fps(fps: int) -> int {
    round_div(100, fps)
}

/// The loop count written for a stored repeat value: none (an endless loop)
/// when it is negative, zero (no loop block, a single play) when it does not
/// fit 16 bits.
pub open spec fn loop_count(repeat: i32) -> Option<u16> {
    if repeat < 0 {
        None
    } else if repeat <= u16::MAX {
        Some(repeat as u16)
    } else {
        Some(0)
    }
}

/// Whether a geometry can be encoded: both sides fit 16 bits.
pub open spec fn encodable(g: Geometry) -> bool {
    g.width <= u16::MAX && g.height <= u16::MAX
}

/// The codec speed used for `quality`, which is first moved into 1..=100.
pub fn codec_speed(quality: u8) -> (r: i32)
    ensures
        r == speed_for_quality(clamp_quality(quality as int)),
        1 <= r <= 30,
{
    let q: i32 = if quality < 1 {
        1
    } else if quality > 100 {
        100
    } else {
        quality as i32
    };
    proof {
        lemma_speed_range(q as int);
    }
    let m = map_range(q, (1, 100), (0, 29));
    30 - (m as i32)
}

/// The display delay of each frame at `fps` frames per second, in
/// hundredths of a second.
pub fn frame_delay(fps: u32) -> (r: u16)
    requires
        fps > 0,
    ensures
        r == delay_for_fps(fps as int),
{
    let f: u64 = fps as u64;
    assert((200 + f) / (2 * f) <= 100) by (nonlinear_arith)
        requires
            f >= 1,
    ;
    ((200 + f) / (2 * f)) as u16
}

/// For every quality in 1..=100 the quality mapped onto 0..=29 lies in that
/// range, from 0 at quality 1 to 29 at quality 100; so the codec speed lies
/// in 1..=30, quality 1 gives 30, quality 100 gives 1, and a higher quality
/// never gives a higher speed.
pub proof fn lemma_speed_range(quality: int)
    requires
        1 <= quality <= 100,
    ensures
        0 <= mapped(quality, (1, 100), (0, 29)) <= 29,
        mapped(1, (1, 100), (0, 29)) == 0,
        mapped(100, (1, 100), (0, 29)) == 29,
        1 <= speed_for_quality(quality) <= 30,
        speed_for_quality(1) == 30,
        speed_for_quality(100) == 1,
        forall|q: int|
            quality <= q <= 100 ==> #[trigger] speed_for_quality(q) <= speed_for_quality(quality),
{
    assert(0 <= (2 * ((quality - 1) * 29) + 99) / 198int <= 29) by (nonlinear_arith)
        requires
            1 <= quality <= 100,
    ;
    assert forall|q: int| quality <= q <= 100 implies #[trigger] speed_for_quality(q) <= speed_for_quality(
        quality,
    ) by {
        assert((2 * ((quality - 1) * 29) + 99) / 198int <= (2 * ((q - 1) * 29) + 99) / 198int)
            by (nonlinear_arith)
            requires
                1 <= quality <= q,
        ;
    }
}


/// Why encoding did not produce a GIF.
#[derive(Clone, Copy, Debug, PartialEq, Eq, Structural)]
pub enum EncodeError {
    /// There was no frame to encode.
    EmptyResult,
    /// The output size does not fit the format.
    InvalidGeometry,
    /// A frame's size does not fit the format or its pixel buffer.
    InvalidFrame,
}

impl EncodeError {
    /// A message for the user.
    pub fn message(&self) -> (r: &'static str)
        ensures
            *self == EncodeError::EmptyResult ==> r@ == "No frames found to save."@,
    {
        match self {
            EncodeError::EmptyResult => "No frames found to save.",
            EncodeError::InvalidGeometry => "The recorded area cannot be encoded as a GIF.",
            EncodeError::InvalidFrame => "A frame does not match its size.",
        }
    }
}

/// Whether a frame can be handed to the GIF writer: its size fits the
/// format and its buffer holds four bytes for each pixel.
pub open spec fn frame_ok(f: CapturedFrame) -> bool {
    encodable(f.image.geometry) && f.image.wf()
}

/// One frame as it is handed to the GIF writer: its size, its pixels in
/// red, green, blue, alpha order, the codec speed and the display delay.
pub struct FrameData {
    pub width: u16,
    pub height: u16,
    pub pixels: Vec<u8>,
    pub speed: i32,
    pub delay: u16,
}

/// What is handed to the GIF writer for `frame` at `quality` and `fps`, or
/// nothing when the frame cannot be encoded.
pub fn prepare_frame(frame: &CapturedFrame, quality: u8, fps: u32) -> (r: Option<FrameData>)
    requires
        fps > 0,
    ensures
        r is None <==> !frame_ok(*frame),
        r matches Some(d) ==> {
            &&& d.width == frame.image.geometry.width
            &&& d.height == frame.image.geometry.height
            &&& d.pixels@ == rgba_of(frame.image.data@, frame.image.bgra)
            &&& d.pixels@.len() == 4 * (d.width as nat) * (d.height as nat)
            &&& d.speed == speed_for_quality(clamp_quality(quality as int))
            &&& 1 <= d.speed <= 30
            &&& d.delay == delay_for_fps(fps as int)
        },
{
    let image = &frame.image;
    let g = image.geometry;
    if g.width > 65535 || g.height > 65535 {
        return None;
    }
    let w = g.width as u64;
    let h = g.height as u64;
    assert(4 * w * h <= 4 * 65535 * 65535) by (nonlinear_arith)
        requires
            w <= 65535,
            h <= 65535,
    ;
    assert(4 * w * h == 4 * (g.width as nat * g.height as nat)) by (nonlinear_arith)
        requires
            w == g.width,
            h == g.height,
    ;
    if image.data.len() as u64 != 4 * w * h {
        return None;
    }
    let pixels = image.get_rgba();
    assert(4 * (g.width as u16 as nat) * (g.height as u16 as nat) == 4 * (g.width as nat * g.height as nat))
        by (nonlinear_arith)
        requires
            g.width <= 65535,
            g.height <= 65535,
    ;
    Some(
        FrameData {
            width: g.width as u16,
            height: g.height as u16,
            pixels,
            speed: codec_speed(quality),
            delay: frame_delay(fps),
        },
    )
}

/// The image block written for `frame` at `quality` and `fps`: the frame as
/// [`prepare_frame`] hands it to the writer.
pub open spec fn frame_block(frame: CapturedFrame, quality: u8, fps: u32) -> Seq<u8> {
    image_block(
        frame.image.geometry.width as u16,
        frame.image.geometry.height as u16,
        rgba_of(frame.image.data@, frame.image.bgra),
        speed_for_quality(clamp_quality(quality as int)) as i32,
        delay_for_fps(fps as int) as u16,
    )
}

/// The image blocks of `frames`, in order.
pub open spec fn frame_blocks(frames: Seq<CapturedFrame>, quality: u8, fps: u32) -> Seq<u8>
    decreases frames.len(),
{
    if frames.len() == 0 {
        Seq::empty()
    } else {
        frame_blocks(frames.drop_last(), quality, fps) + frame_block(frames.last(), quality, fps)
    }
}

/// The result of a finished encoding: the GIF bytes, the number of frames
/// written, and whether a cancellation stopped it before the last frame.
pub struct Encoded {
    pub bytes: Vec<u8>,
    pub written: usize,
    pub stopped: bool,
}

/// An encoder of frame sequences into a GIF, opened for one output size,
/// frame rate and set of settings.
pub trait Encoder: Sized {
    /// The frame rate the delays are computed from.
    spec fn spec_fps(&self) -> u32;

    /// The settings the encoder was opened with.
    spec fn spec_settings(&self) -> GifSettings;

    /// The bytes written so far.
    spec fn spec_output(&self) -> Seq<u8>;

    /// Opens an encoder for images of `geometry`'s size, shown at `fps`
    /// frames per second, and writes the GIF header and the loop policy of
    /// `settings`.
    fn new(geometry: Geometry, fps: u32, settings: GifSettings) -> (r: Result<Self, EncodeError>)
        requires
            fps > 0,
        ensures
            r is Err <==> !encodable(geometry),
            r matches Err(e) ==> e == EncodeError::InvalidGeometry,
            r matches Ok(g) ==> {
                &&& g.spec_fps() == fps
                &&& g.spec_settings() == settings
                &&& g.spec_output() == screen_header(geometry.width as u16, geometry.height as u16)
                    + loop_extension(loop_count(settings.repeat))
            },
    ;

    /// Encodes `frames` in order and finishes the GIF with its trailer.
    /// Before frame `i` is written, `cancelled(i)` is asked; once it answers
    /// yes no further frame is written, and the GIF is finished with the
    /// frames written so far.
    fn save<F: Fn(usize) -> bool>(self, frames: Vec<CapturedFrame>, cancelled: F) -> (r: Result<Encoded, EncodeError>)
        requires
            self.spec_fps() > 0,
            forall|i: usize| i < frames@.len() ==> call_requires(cancelled, (i,)),
        ensures
            r == Err::<Encoded, EncodeError>(EncodeError::EmptyResult) <==> frames@.len() == 0,
            frames@.len() > 0 && (forall|i: int| 0 <= i < frames@.len() ==> frame_ok(#[trigger] frames@[i]))
                ==> r is Ok,
            r matches Err(e) ==> e == EncodeError::EmptyResult || e == EncodeError::InvalidFrame,
            r == Err::<Encoded, EncodeError>(EncodeError::InvalidFrame) ==> exists|i: usize|
                {
                    &&& i < frames@.len()
                    &&& !frame_ok(#[trigger] frames@[i as int])
                    &&& forall|j: int| 0 <= j < i ==> frame_ok(#[trigger] frames@[j])
                    &&& forall|k: usize| k <= i ==> call_ensures(cancelled, (k,), false)
                },
            r matches Ok(e) ==> {
                &&& e.written <= frames@.len()
                &&& e.stopped <==> e.written < frames@.len()
                &&& forall|i: int| 0 <= i < e.written ==> frame_ok(#[trigger] frames@[i])
                &&& forall|i: usize| i < e.written ==> call_ensures(cancelled, (i,), false)
                &&& e.stopped ==> call_ensures(cancelled, (e.written,), true)
                &&& forall|i: int| 0 <= i < e.written ==> block_head(
                    #[trigger] frame_block(frames@[i], self.spec_settings().quality, self.spec_fps()),
                    frames@[i].image.geometry.width as u16,
                    frames@[i].image.geometry.height as u16,
                    delay_for_fps(self.spec_fps() as int) as u16,
                )
                &&& e.bytes@ == self.spec_output() + frame_blocks(
                    frames@.take(e.written as int),
                    self.spec_settings().quality,
                    self.spec_fps(),
                ) + seq![0x3Bu8]
            },
    ;
}

/// A GIF encoder over an in-memory buffer.
pub struct Gif {
    fps: u32,
    encoder: GifWriter,
    settings: GifSettings,
}

impl Encoder for Gif {
    closed spec fn spec_fps(&self) -> u32 {
        self.fps
    }

    closed spec fn spec_settings(&self) -> GifSettings {
        self.settings
    }

    closed spec fn spec_output(&self) -> Seq<u8> {
        writer_bytes(self.encoder)
    }

    fn new(geometry: Geometry, fps: u32, settings: GifSettings) -> (r: Result<Gif, EncodeError>) {
        if geometry.width > 65535 || geometry.height > 65535 {
            return Err(EncodeError::InvalidGeometry);
        }
        let mut encoder = match open_encoder(geometry.width as u16, geometry.height as u16) {
            Ok(e) => e,
            Err(_) => unreached(),
        };
        let repeat: Option<u16> = if settings.repeat < 0 {
            None
        } else if settings.repeat <= 65535 {
            Some(settings.repeat as u16)
        } else {
            Some(0)
        };
        match set_loop(&mut encoder, repeat) {
            Ok(()) => {},
            Err(_) => unreached(),
        }
        Ok(Gif { fps, encoder, settings })
    }

    /// Each frame is handed to the writer as [`prepare_frame`] makes it from
    /// the quality setting and the frame rate.
    fn save<F: Fn(usize) -> bool>(self, frames: Vec<CapturedFrame>, cancelled: F) -> (r: Result<Encoded, EncodeError>) {
        if frames.len() == 0 {
            return Err(EncodeError::EmptyResult);
        }
        let ghost start = writer_bytes(self.encoder);
        let quality = self.settings.quality;
        let fps = self.fps;
        let mut encoder = self.encoder;
        let n = frames.len();
        let mut i: usize = 0;
        let mut stopped = false;
        assert(frames@.take(0) =~= Seq::<CapturedFrame>::empty());
        while i < n && !stopped
            invariant
                n == frames@.len(),
                n > 0,
                i <= n,
                fps > 0,
                quality == self.settings.quality,
                fps == self.fps,
                start == writer_bytes(self.encoder),
                forall|k: usize| k < n ==> call_requires(cancelled, (k,)),
                forall|j: int| 0 <= j < i ==> frame_ok(#[trigger] frames@[j]),
                forall|k: usize| k < i ==> call_ensures(cancelled, (k,), false),
                stopped ==> i < n && call_ensures(cancelled, (i,), true),
                writer_bytes(encoder) == start + frame_blocks(frames@.take(i as int), quality, fps),
                forall|j: int| 0 <= j < i ==> block_head(
                    #[trigger] frame_block(frames@[j], quality, fps),
                    frames@[j].image.geometry.width as u16,
                    frames@[j].image.geometry.height as u16,
                    delay_for_fps(fps as int) as u16,
                ),
            decreases n - i + (if stopped { 0int } else { 1int }),
        {
            if cancelled(i) {
                stopped = true;
            } else {
                let data = match prepare_frame(&frames[i], quality, fps) {
                    Some(d) => d,
                    None => {
                        assert(!frame_ok(frames@[i as int]));
                        assert(forall|k: usize| k <= i ==> call_ensures(cancelled, (k,), false));
                        return Err(EncodeError::InvalidFrame);
                    },
                };
                let frame = rgba_frame(data.width, data.height, data.pixels, data.speed, data.delay);
                let ghost before = writer_bytes(encoder);
                match write_frame(&mut encoder, &frame) {
                    Ok(()) => {},
                    Err(_) => unreached(),
                }
                proof {
                    let t = frames@.take(i + 1);
                    assert(t.drop_last() =~= frames@.take(i as int));
                    assert(t.last() == frames@[i as int]);
                    assert(writer_bytes(encoder) =~= start + frame_blocks(t, quality, fps));
                    assert(writer_bytes(encoder).skip(before.len() as int) =~= frame_block(frames@[i as int], quality, fps));
                }
                i = i + 1;
            }
        }
        match finish(encoder) {
            Ok(bytes) => Ok(Encoded { bytes, written: i, stopped }),
            Err(_) => unreached(),
        }
    }
}

} // verus!
