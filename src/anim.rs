//! Settings of building a GIF from frame files and of splitting one.
use vstd::prelude::*;
use crate::encode::{map_range, mapped};
use crate::encode::settings::{
    chosen_quality, chosen_speed, stored_repeat, DEFAULT_QUALITY, DEFAULT_REPEAT, DEFAULT_SPEED,
};
use crate::fps::DEFAULT_FPS;
use crate::natural::{natural_sorted, sort_frames, texts};
use crate::parse::{millis_or_zero, millis_setting, setting, setting_or, text_of};
use crate::paths::{file_or_empty, split_dir, split_paths, SplitArgs};

verus! {

/// The values given on the command line for building a GIF from frame
/// files, as text, with the frame files already listed.
#[derive(Clone, Debug)]
pub struct AnimArgs {
    pub fps: Option<String>,
    pub repeat: Option<String>,
    pub quality: Option<String>,
    pub speed: Option<String>,
    pub cut_beginning: Option<String>,
    pub cut_end: Option<String>,
    pub frames: Vec<String>,
    pub no_sort: bool,
    pub gifski: bool,
    pub fast: bool,
}

/// The frame rate for a requested one: a positive integer that fits 32
/// bits, else the default.
pub open spec fn chosen_fps(requested: Option<Seq<char>>) -> int {
    setting_or(requested, false, 1, u32::MAX as int, DEFAULT_FPS as int)
}

/// Settings of building a GIF from frame files. `cut` is the time cut from
/// the beginning and from the end, in milliseconds; `gifski` tells whether
/// the external encoder is used and whether in its fast mode.
#[derive(Debug)]
pub struct AnimSettings {
    pub fps: u32,
    pub repeat: i32,
    pub quality: u8,
    pub speed: u8,
    pub cut: (u64, u64),
    pub frames: Vec<String>,
    pub gifski: (bool, bool),
}

impl Default for AnimSettings {
    fn default() -> (r: Self)
        ensures
            r.fps == DEFAULT_FPS,
            r.repeat == DEFAULT_REPEAT,
            r.quality == DEFAULT_QUALITY,
            r.speed == DEFAULT_SPEED,
            r.cut == (0u64, 0u64),
            r.frames@ == Seq::<String>::empty(),
            r.gifski == (false, false),
    {
        AnimSettings {
            fps: DEFAULT_FPS,
            repeat: DEFAULT_REPEAT,
            quality: DEFAULT_QUALITY,
            speed: DEFAULT_SPEED,
            cut: (0, 0),
            frames: Vec::new(),
            gifski: (false, false),
        }
    }
}

impl AnimSettings {
    pub fn new(
        fps: u32,
        repeat: i32,
        quality: u8,
        speed: u8,
        cut: (u64, u64),
        frames: Vec<String>,
        gifski: (bool, bool),
    ) -> (r: Self)
        ensures
            r.fps == fps,
            r.repeat == repeat,
            r.quality == quality,
            r.speed == speed,
            r.cut == cut,
            r.frames@ == frames@,
            r.gifski == gifski,
    {
        AnimSettings { fps, repeat, quality, speed, cut, frames, gifski }
    }

    /// `value` mapped linearly from `from_range` onto `to_range`, rounded to
    /// the nearest integer (halves up).
    pub fn map_range(&self, value: i32, from_range: (i32, i32), to_range: (i32, i32)) -> (r: i128)
        requires
            from_range.0 != from_range.1,
        ensures
            r == mapped(
                value as int,
                (from_range.0 as int, from_range.1 as int),
                (to_range.0 as int, to_range.1 as int),
            ),
    {
        map_range(value, from_range, to_range)
    }

    /// Settings from command-line values: with none, the defaults; else the
    /// frame rate, quality and speed read in their ranges (a frame rate of
    /// zero takes the default), the repeat count stored less one, the cut
    /// times in milliseconds, the frame files in natural order unless
    /// sorting is off, and the fast mode implying the external encoder.
    pub fn from_args(args: Option<AnimArgs>) -> (r: Self)
        ensures
            args is None ==> {
                &&& r.fps == DEFAULT_FPS
                &&& r.repeat == DEFAULT_REPEAT
                &&& r.quality == DEFAULT_QUALITY
                &&& r.speed == DEFAULT_SPEED
                &&& r.cut == (0u64, 0u64)
                &&& r.frames@ == Seq::<String>::empty()
                &&& r.gifski == (false, false)
            },
            args matches Some(a) ==> {
                &&& r.fps == chosen_fps(text_of(a.fps))
                &&& r.repeat == stored_repeat(text_of(a.repeat))
                &&& r.quality == chosen_quality(text_of(a.quality))
                &&& r.speed == chosen_speed(text_of(a.speed))
                &&& r.cut.0 == millis_or_zero(text_of(a.cut_beginning))
                &&& r.cut.1 == millis_or_zero(text_of(a.cut_end))
                &&& (a.no_sort ==> r.frames@ == a.frames@)
                &&& (!a.no_sort ==> texts(r.frames@) == natural_sorted(texts(a.frames@)))
                &&& r.gifski == (a.gifski || a.fast, a.fast)
            },
    {
        match args {
            None => AnimSettings::default(),
            Some(a) => {
                let fps = setting(&a.fps, false, 1, u32::MAX as i64, DEFAULT_FPS as i64);
                let repeat = setting(&a.repeat, true, i32::MIN as i64 + 1, i32::MAX as i64, DEFAULT_REPEAT as i64);
                let quality = setting(&a.quality, false, 1, 100, DEFAULT_QUALITY as i64);
                let speed = setting(&a.speed, false, 1, 30, DEFAULT_SPEED as i64);
                let cut = (millis_setting(&a.cut_beginning), millis_setting(&a.cut_end));
                let gifski = (a.gifski || a.fast, a.fast);
                let frames = sort_frames(a.frames, !a.no_sort);
                AnimSettings::new(fps as u32, (repeat - 1) as i32, quality as u8, speed as u8, cut, frames, gifski)
            },
        }
    }
}

/// The file a GIF is split from and the directory its frames go to, with
/// any shell expansion already applied.
#[derive(Clone, Debug)]
pub struct SplitSettings {
    pub file: String,
    pub dir: String,
}

impl Default for SplitSettings {
    fn default() -> (r: Self)
        ensures
            r.file@ == Seq::<char>::empty(),
            r.dir@ == Seq::<char>::empty(),
    {
        SplitSettings { file: String::new(), dir: String::new() }
    }
}

impl SplitSettings {
    pub fn new(file: String, dir: String) -> (r: Self)
        ensures
            r.file@ == file@,
            r.dir@ == dir@,
    {
        SplitSettings { file, dir }
    }

    /// Settings from command-line values: the file (empty when absent) and
    /// the directory, which defaults to the file's stem followed by
    /// `_frames` under `base_dir`.
    pub fn from_args(args: &Option<SplitArgs>) -> (r: Self)
        ensures
            args is None ==> r.file@ == Seq::<char>::empty() && r.dir@ == Seq::<char>::empty(),
            args matches Some(a) ==> r.file@ == file_or_empty(a.file) && r.dir@ == split_dir(*a),
    {
        match args {
            None => SplitSettings::default(),
            Some(a) => {
                let (file, dir) = split_paths(a);
                SplitSettings::new(file, dir)
            },
        }
    }
}

} // verus!
