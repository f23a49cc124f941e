//! Settings of the GIF encoder and of splitting a GIF into frames.
use vstd::prelude::*;
use crate::parse::{setting, setting_or, text_of, parsed_in};
use crate::paths::{file_or_empty, split_dir, split_paths, SplitArgs};

verus! {

/// Default repeat value: the user-facing count of zero, stored minus one.
pub const DEFAULT_REPEAT: i32 = -1;

/// Default encoding quality.
pub const DEFAULT_QUALITY: u8 = 75;

/// Default codec speed.
pub const DEFAULT_SPEED: u8 = 1;

/// Settings of the GIF encoder. `repeat` is the number of extra loops,
/// negative for an endless loop; it is stored as the user-facing count minus
/// one.
#[derive(Clone, Copy, Debug, PartialEq, Eq, Structural)]
pub struct GifSettings {
    pub repeat: i32,
    pub quality: u8,
    pub speed: u8,
    pub fast: bool,
}

impl Default for GifSettings {
    fn default() -> (r: Self)
        ensures
            r == (GifSettings {
                repeat: DEFAULT_REPEAT,
                quality: DEFAULT_QUALITY,
                speed: DEFAULT_SPEED,
                fast: false,
            }),
    {
        GifSettings { repeat: DEFAULT_REPEAT, quality: DEFAULT_QUALITY, speed: DEFAULT_SPEED, fast: false }
    }
}

/// The values given on the command line for the GIF encoder, as text.
#[derive(Clone, Debug)]
pub struct GifArgs {
    pub repeat: Option<String>,
    pub quality: Option<String>,
    pub speed: Option<String>,
    pub fast: bool,
}

/// The stored repeat value for a requested one: the request, an integer
/// above `i32::MIN` (the default, -1, when absent or not such an integer),
/// less one.
pub open spec fn stored_repeat(requested: Option<Seq<char>>) -> int {
    setting_or(requested, true, i32::MIN + 1, i32::MAX as int, DEFAULT_REPEAT as int) - 1
}

/// The quality for a requested one: an integer in 1..=100, else the default.
pub open spec fn chosen_quality(requested: Option<Seq<char>>) -> int {
    setting_or(requested, false, 1, 100, DEFAULT_QUALITY as int)
}

/// The codec speed for a requested one: an integer in 1..=30, else the
/// default.
pub open spec fn chosen_speed(requested: Option<Seq<char>>) -> int {
    setting_or(requested, false, 1, 30, DEFAULT_SPEED as int)
}

/// A requested repeat count is stored less one: a request of `n` loops is
/// kept as `n - 1`, so zero becomes -1, an endless loop.
pub proof fn lemma_repeat_stored_minus_one(requested: Seq<char>, n: int)
    requires
        parsed_in(requested, true, i32::MIN + 1, i32::MAX as int) == Some(n),
    ensures
        stored_repeat(Some(requested)) == n - 1,
        n == 0 ==> stored_repeat(Some(requested)) == -1,
{
}

impl GifSettings {
    /// Settings from command-line values: with none, the defaults; else each
    /// numeric value read as an integer in its range, its default when
    /// absent or not such an integer, and the repeat count stored less one.
    pub fn from_args(args: &Option<GifArgs>) -> (r: Self)
        ensures
            args is None ==> r == (GifSettings {
                repeat: DEFAULT_REPEAT,
                quality: DEFAULT_QUALITY,
                speed: DEFAULT_SPEED,
                fast: false,
            }),
            args matches Some(a) ==> {
                &&& r.repeat == stored_repeat(text_of(a.repeat))
                &&& r.quality == chosen_quality(text_of(a.quality))
                &&& r.speed == chosen_speed(text_of(a.speed))
                &&& r.fast == a.fast
            },
    {
        match args {
            None => GifSettings::default(),
            Some(a) => {
                let repeat = setting(&a.repeat, true, i32::MIN as i64 + 1, i32::MAX as i64, DEFAULT_REPEAT as i64);
                let quality = setting(&a.quality, false, 1, 100, DEFAULT_QUALITY as i64);
                let speed = setting(&a.speed, false, 1, 30, DEFAULT_SPEED as i64);
                GifSettings::new((repeat - 1) as i32, quality as u8, speed as u8, a.fast)
            },
        }
    }

    pub fn new(repeat: i32, quality: u8, speed: u8, fast: bool) -> (r: Self)
        ensures
            r == (GifSettings { repeat, quality, speed, fast }),
    {
        GifSettings { repeat, quality, speed, fast }
    }
}


/// The file a GIF is split from and the directory its frames go to.
#[derive(Clone, Debug)]
pub struct SplitSettings {
    pub file: String,
    pub dir: String,
}

impl Default for SplitSettings {
    fn default() -> (r: Self)
        ensures
            r.file@ == Seq::<char>::empty(),
            r.dir@ == Seq::<char>::empty(),
    {
        SplitSettings { file: String::new(), dir: String::new() }
    }
}

impl SplitSettings {
    pub fn new(file: String, dir: String) -> (r: Self)
        ensures
            r.file@ == file@,
            r.dir@ == dir@,
    {
        SplitSettings { file, dir }
    }

    /// Settings from command-line values: the file (empty when absent) and
    /// the directory, which defaults to the file's stem followed by
    /// `_frames` under `base_dir`.
    pub fn from_args(args: &Option<SplitArgs>) -> (r: Self)
        ensures
            args is None ==> r.file@ == Seq::<char>::empty() && r.dir@ == Seq::<char>::empty(),
            args matches Some(a) ==> r.file@ == file_or_empty(a.file) && r.dir@ == split_dir(*a),
    {
        match args {
            None => SplitSettings::default(),
            Some(a) => {
                let (file, dir) = split_paths(a);
                SplitSettings::new(file, dir)
            },
        }
    }
}

} // verus!
