use tgif::anim::{AnimArgs, AnimSettings, SplitSettings};
use tgif::command::BaseCommand;
use tgif::encode::settings::{GifArgs, GifSettings};
use tgif::natural::sort_frames;
use tgif::parse::{parse_integer, parse_millis};
use tgif::paths::{frames_dir, SplitArgs};

fn text(s: &str) -> Option<String> {
    Some(s.to_string())
}

fn anim_args() -> AnimArgs {
    AnimArgs {
        fps: None,
        repeat: None,
        quality: None,
        speed: None,
        cut_beginning: None,
        cut_end: None,
        frames: Vec::new(),
        no_sort: false,
        gifski: false,
        fast: false,
    }
}

#[test]
fn test_anim_settings() {
    let args = AnimArgs {
        fps: text("15"),
        repeat: text("5"),
        quality: text("10"),
        speed: text("1.1"),
        cut_beginning: text("0.9"),
        cut_end: text("0.8"),
        gifski: true,
        fast: true,
        ..anim_args()
    };
    let anim_settings = AnimSettings::from_args(Some(args));
    assert_eq!(15, anim_settings.fps);
    assert_eq!(4, anim_settings.repeat);
    assert_eq!(10, anim_settings.quality);
    assert_eq!(true, anim_settings.gifski.0);
    assert_eq!(true, anim_settings.gifski.1);
    // The codec speed is an integer in 1..=30: "1.1" is not one, so the
    // default stays.
    assert_eq!(1, anim_settings.speed);
    assert_eq!((900, 800), anim_settings.cut);
    let anim_settings = AnimSettings::from_args(None);
    assert_eq!(-1, anim_settings.repeat);
    assert_eq!(75, anim_settings.quality);
    assert_eq!(false, anim_settings.gifski.0);
    assert_eq!(false, anim_settings.gifski.1);
    assert_eq!(1, anim_settings.speed);
    assert_eq!((0, 0), anim_settings.cut);
}

#[test]
fn test_split_settings() {
    let args = SplitArgs { file: text("x"), dir: None, base_dir: String::new() };
    let split_settings = SplitSettings::from_args(&Some(args));
    assert_eq!("x", split_settings.file);
    assert_eq!("x_frames", split_settings.dir);
    let args = SplitArgs { file: None, dir: text("/home/user/"), base_dir: String::new() };
    let split_settings = SplitSettings::from_args(&Some(args));
    assert_eq!("/home/user/", split_settings.dir);
}

#[test]
fn test_gif_settings() {
    let args = GifArgs { repeat: text("5"), quality: text("10"), speed: text("1.1"), fast: true };
    let gif_settings = GifSettings::from_args(&Some(args));
    assert_eq!(4, gif_settings.repeat);
    assert_eq!(10, gif_settings.quality);
    // "1.1" is not an integer speed: the default stays.
    assert_eq!(1, gif_settings.speed);
    assert_eq!(true, gif_settings.fast);
    let gif_settings = GifSettings::from_args(&None);
    assert_eq!(-1, gif_settings.repeat);
    assert_eq!(75, gif_settings.quality);
    assert_eq!(1, gif_settings.speed);
    assert_eq!(false, gif_settings.fast);
}

#[test]
fn repeat_is_stored_less_one() {
    let five = GifSettings::from_args(&Some(GifArgs { repeat: text("5"), quality: None, speed: None, fast: false }));
    assert_eq!(4, five.repeat);
    let zero = GifSettings::from_args(&Some(GifArgs { repeat: text("0"), quality: None, speed: None, fast: false }));
    assert_eq!(-1, zero.repeat);
    // The default is already offset, and is offset again when values are given.
    let absent = GifSettings::from_args(&Some(GifArgs { repeat: None, quality: None, speed: None, fast: false }));
    assert_eq!(-2, absent.repeat);
    let anim = AnimSettings::from_args(Some(AnimArgs { repeat: text("0"), ..anim_args() }));
    assert_eq!(-1, anim.repeat);
}

#[test]
fn out_of_range_values_fall_back() {
    let s = GifSettings::from_args(&Some(GifArgs {
        repeat: text("x"),
        quality: text("101"),
        speed: text("31"),
        fast: false,
    }));
    assert_eq!(-2, s.repeat);
    assert_eq!(75, s.quality);
    assert_eq!(1, s.speed);
    let s = GifSettings::from_args(&Some(GifArgs { repeat: None, quality: text("100"), speed: text("30"), fast: false }));
    assert_eq!(100, s.quality);
    assert_eq!(30, s.speed);
}

#[test]
fn zero_fps_takes_default() {
    let a = AnimSettings::from_args(Some(AnimArgs { fps: text("0"), ..anim_args() }));
    assert_eq!(20, a.fps);
    let a = AnimSettings::from_args(Some(AnimArgs { fps: text("-3"), ..anim_args() }));
    assert_eq!(20, a.fps);
    let a = AnimSettings::from_args(Some(AnimArgs { fps: text("30"), ..anim_args() }));
    assert_eq!(30, a.fps);
}

#[test]
fn natural_sort_orders_numbers() {
    let frames = vec!["frame2.png".to_string(), "frame10.png".to_string(), "frame1.png".to_string()];
    assert_eq!(sort_frames(frames.clone(), true), vec!["frame1.png", "frame2.png", "frame10.png"]);
    assert_eq!(sort_frames(frames.clone(), false), frames);
    let a = AnimSettings::from_args(Some(AnimArgs { frames: frames.clone(), ..anim_args() }));
    assert_eq!(a.frames, vec!["frame1.png", "frame2.png", "frame10.png"]);
    let a = AnimSettings::from_args(Some(AnimArgs { frames: frames.clone(), no_sort: true, ..anim_args() }));
    assert_eq!(a.frames, frames);
    assert!(sort_frames(Vec::new(), true).is_empty());
}

#[test]
fn fast_implies_external_encoder() {
    let a = AnimSettings::from_args(Some(AnimArgs { fast: true, ..anim_args() }));
    assert_eq!((true, true), a.gifski);
    let a = AnimSettings::from_args(Some(AnimArgs { gifski: true, ..anim_args() }));
    assert_eq!((true, false), a.gifski);
}

#[test]
fn integers_parse_as_rust_does() {
    assert_eq!(parse_integer("42", false, 0, 255), Some(42));
    assert_eq!(parse_integer("+7", false, 0, 255), Some(7));
    assert_eq!(parse_integer("-7", false, -10, 255), None);
    assert_eq!(parse_integer("-7", true, -10, 255), Some(-7));
    assert_eq!(parse_integer("256", false, 0, 255), None);
    assert_eq!(parse_integer("", true, 0, 255), None);
    assert_eq!(parse_integer("+", true, 0, 255), None);
    assert_eq!(parse_integer("1a", true, 0, 255), None);
    assert_eq!(parse_integer("99999999999999999999", true, 0, 255), None);
}

#[test]
fn seconds_parse_as_milliseconds() {
    assert_eq!(parse_millis("0.9"), Some(900));
    assert_eq!(parse_millis("2"), Some(2000));
    assert_eq!(parse_millis("1.25"), Some(1250));
    assert_eq!(parse_millis("1.2345"), Some(1234));
    assert_eq!(parse_millis(".5"), Some(500));
    assert_eq!(parse_millis("3."), Some(3000));
    assert_eq!(parse_millis("."), None);
    assert_eq!(parse_millis("1.2.3"), None);
    assert_eq!(parse_millis("x"), None);
    assert_eq!(parse_millis(""), None);
}

#[test]
fn frame_directory_defaults_to_stem() {
    assert_eq!(frames_dir("", "x"), "x_frames");
    assert_eq!(frames_dir("/tmp", "x"), "/tmp/x_frames");
    assert_eq!(frames_dir("/tmp/", "x"), "/tmp/x_frames");
    let args = SplitArgs { file: text("shots/demo.gif"), dir: None, base_dir: "/out".to_string() };
    let s = SplitSettings::from_args(&Some(args));
    assert_eq!("shots/demo.gif", s.file);
    assert_eq!("/out/demo_frames", s.dir);
    let s = tgif::encode::settings::SplitSettings::from_args(&None);
    assert_eq!("", s.file);
    assert_eq!("", s.dir);
}

#[test]
fn base_commands_describe_themselves() {
    assert_eq!(BaseCommand::Record.name(), "record");
    assert_eq!(BaseCommand::Capture.name(), "capture");
    assert_eq!(BaseCommand::Record.get_description(), "Records a window");
    assert_eq!(BaseCommand::Capture.get_description(), "Takes a screenshot of a window");
}

#[test]
fn ranges_map_with_rounding() {
    let a = AnimSettings::from_args(None);
    assert_eq!(a.map_range(50, (1, 100), (0, 29)), 14);
    assert_eq!(a.map_range(1, (1, 100), (0, 29)), 0);
    assert_eq!(a.map_range(100, (1, 100), (0, 29)), 29);
    assert_eq!(a.map_range(1, (100, 1), (0, 29)), 29);
    assert_eq!(a.map_range(3, (0, 10), (0, -5)), -1);
    assert_eq!(a.map_range(5, (0, 10), (0, 3)), 2);
    assert_eq!(tgif::encode::map_range(i32::MAX, (i32::MIN, i32::MAX), (i32::MIN, i32::MAX)), i32::MAX as i128);
}
