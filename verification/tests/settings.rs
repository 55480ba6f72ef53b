use bombuscv_rs::args::{parse_codec, parse_directory, parse_video, Args};
use bombuscv_rs::codec::{pack, Codec};
use bombuscv_rs::config::{
    config_file, config_file_in, default_directory, default_format, default_framerate,
    default_height, default_index, default_width, expand_home, expand_home_in, Config,
};
use bombuscv_rs::error::ErrorKind;
use bombuscv_rs::frame::Timestamp;
use bombuscv_rs::paths::{home_directory, home_in};

fn no_args() -> Args {
    Args {
        index: None,
        video: None,
        height: None,
        width: None,
        framerate: None,
        codec: None,
        directory: None,
        format: None,
        overlay: false,
        no_color: false,
        quiet: false,
    }
}

fn config() -> Config {
    Config {
        index: 2,
        video: None,
        height: 1080,
        width: 1920,
        framerate: 30,
        directory: String::from("/data"),
        format: String::from("output"),
        overlay: true,
        no_color: false,
        quiet: true,
    }
}

#[test]
fn fourcc_of_each_codec() {
    assert_eq!(Codec::MJPG.fourcc(), 0x4750_4A4D);
    assert_eq!(Codec::XVID.fourcc(), 0x4449_5658);
    assert_eq!(Codec::MP4V.fourcc(), 0x7634_706D);
    assert_eq!(Codec::H264.fourcc(), 0x3436_3268);
    assert_eq!(Codec::XVID.fourcc(), 1_145_656_920);
}

#[test]
fn pack_puts_the_first_character_lowest() {
    assert_eq!(pack('a', '\0', '\0', '\0'), 97);
    assert_eq!(pack('\0', 'a', '\0', '\0'), 97 * 256);
    assert_eq!(pack('\0', '\0', 'a', '\0'), 97 * 65_536);
    assert_eq!(pack('\0', '\0', '\0', 'a'), 97 * 16_777_216);
    assert_eq!(pack('\u{7f}', '\u{7f}', '\u{7f}', '\u{7f}'), 0x7f7f_7f7f);
}

#[test]
fn parse_codec_knows_four_names() {
    assert_eq!(parse_codec("h264"), Ok(Codec::H264));
    assert_eq!(parse_codec("mjpg"), Ok(Codec::MJPG));
    assert_eq!(parse_codec("xvid"), Ok(Codec::XVID));
    assert_eq!(parse_codec("mp4v"), Ok(Codec::MP4V));
}

#[test]
fn parse_codec_refuses_the_rest() {
    assert_eq!(parse_codec("H264"), Err(String::from("unsupported codec")));
    assert_eq!(parse_codec(""), Err(String::from("unsupported codec")));
    assert_eq!(parse_codec("xvid "), Err(String::from("unsupported codec")));
    assert_eq!(parse_codec("vp9"), Err(String::from("unsupported codec")));
}

#[test]
fn parse_video_wants_a_file() {
    assert_eq!(parse_video(String::from("/v/a.mkv"), true), Ok(String::from("/v/a.mkv")));
    assert_eq!(
        parse_video(String::from("/v/a.mkv"), false),
        Err(String::from("the given path is not a file"))
    );
}

#[test]
fn parse_directory_wants_a_directory_or_makes_one() {
    assert_eq!(parse_directory(String::from("/v"), true, false), Ok(String::from("/v")));
    assert_eq!(parse_directory(String::from("/v"), false, true), Ok(String::from("/v")));
    assert_eq!(parse_directory(String::from("/v"), true, true), Ok(String::from("/v")));
    assert_eq!(
        parse_directory(String::from("/v"), false, false),
        Err(String::from("unable to create specified directory"))
    );
}

#[test]
fn defaults() {
    assert_eq!(default_index(), 0);
    assert_eq!(default_height(), 480);
    assert_eq!(default_width(), 640);
    assert_eq!(default_framerate(), 60);
    assert_eq!(default_format(), "%Y-%m-%dT%H:%M:%S");
    assert_eq!(default_directory(), home_directory());
}

#[test]
fn default_configuration() {
    let made = Config::with_directory(String::from("/home/bee"));
    assert_eq!(
        made,
        Config {
            index: 0,
            video: None,
            height: 480,
            width: 640,
            framerate: 60,
            directory: String::from("/home/bee"),
            format: String::from("%Y-%m-%dT%H:%M:%S"),
            overlay: false,
            no_color: false,
            quiet: false,
        }
    );
    match (Config::default_config(), home_directory()) {
        (Some(found), Some(home)) => assert_eq!(found, Config::with_directory(home)),
        (None, None) => {}
        other => panic!("{:?}", other),
    }
}

#[test]
fn no_arguments_override_nothing() {
    assert_eq!(config().override_with_args(no_args()), config());
}

#[test]
fn every_argument_overrides_its_option() {
    let args = Args {
        index: Some(7),
        video: None,
        height: Some(720),
        width: Some(1280),
        framerate: Some(25),
        codec: Some(Codec::MJPG),
        directory: Some(String::from("/out")),
        format: Some(String::from("%H")),
        overlay: false,
        no_color: true,
        quiet: false,
    };
    assert_eq!(
        config().override_with_args(args),
        Config {
            index: 7,
            video: None,
            height: 720,
            width: 1280,
            framerate: 25,
            directory: String::from("/out"),
            format: String::from("%H"),
            overlay: true,
            no_color: true,
            quiet: true,
        }
    );
}

#[test]
fn video_input_turns_the_overlay_off() {
    let args = Args { video: Some(String::from("/in.mkv")), ..no_args() };
    let merged = config().override_with_args(args);
    assert_eq!(merged.video, Some(String::from("/in.mkv")));
    assert!(!merged.overlay);
}

#[test]
fn overlay_argument_wins_over_video_input() {
    let args = Args { video: Some(String::from("/in.mkv")), overlay: true, ..no_args() };
    assert!(config().override_with_args(args).overlay);
    let plain = Config { overlay: false, ..config() };
    assert!(plain.override_with_args(Args { overlay: true, ..no_args() }).overlay);
    let plain = Config { overlay: false, ..config() };
    assert!(!plain.override_with_args(no_args()).overlay);
}

#[test]
fn switches_only_turn_on() {
    let loud = Config { quiet: false, no_color: true, ..config() };
    let merged = loud.override_with_args(Args { quiet: true, ..no_args() });
    assert!(merged.quiet);
    assert!(merged.no_color);
}

#[test]
fn expand_home_puts_the_home_directory_for_the_tilde() {
    assert_eq!(expand_home_in("~/videos", Some("/home/bee")), Some(String::from("/home/bee/videos")));
    assert_eq!(expand_home_in("~", Some("/home/bee")), Some(String::from("/home/bee/")));
    assert_eq!(expand_home_in("~/a/b.mkv", Some("/h")), Some(String::from("/h/a/b.mkv")));
}

#[test]
fn expand_home_leaves_other_paths_alone() {
    assert_eq!(expand_home_in("/videos", Some("/home/bee")), Some(String::from("/videos")));
    assert_eq!(expand_home_in("videos/~", Some("/home/bee")), Some(String::from("videos/~")));
    assert_eq!(expand_home_in("~bee/videos", Some("/home")), Some(String::from("~bee/videos")));
    assert_eq!(expand_home_in("/videos", None), Some(String::from("/videos")));
    assert_eq!(expand_home("/videos"), Some(String::from("/videos")));
    assert_eq!(expand_home(""), Some(String::from("")));
}

#[test]
fn expand_home_needs_a_home_directory() {
    assert_eq!(expand_home_in("~/videos", None), None);
    match home_directory() {
        Some(home) => assert_eq!(expand_home("~/x"), expand_home_in("~/x", Some(home.as_str()))),
        None => assert_eq!(expand_home("~/x"), None),
    }
}

#[test]
fn configuration_file_is_looked_for_below_the_configuration_directory() {
    assert_eq!(
        config_file_in(None, Some(("/home/bee", "/home/bee/.config"))),
        Ok(String::from("/home/bee/.config/bombuscv/config.toml"))
    );
}

#[test]
fn configuration_file_of_the_users_choice() {
    assert_eq!(
        config_file_in(Some("~/my.toml"), Some(("/home/bee", "/home/bee/.config"))),
        Ok(String::from("/home/bee/my.toml"))
    );
    assert_eq!(
        config_file_in(Some("/etc/my.toml"), Some(("/home/bee", "/home/bee/.config"))),
        Ok(String::from("/etc/my.toml"))
    );
}

#[test]
fn no_configuration_file_without_base_directories() {
    assert_eq!(config_file_in(None, None), Err(ErrorKind::ConfigNotFound));
    assert_eq!(config_file_in(Some("/etc/my.toml"), None), Err(ErrorKind::ConfigNotFound));
    match home_directory() {
        Some(_) => assert_eq!(config_file(Some("/etc/my.toml")), Ok(String::from("/etc/my.toml"))),
        None => assert_eq!(config_file(Some("/etc/my.toml")), Err(ErrorKind::ConfigNotFound)),
    }
}

#[test]
fn output_file_is_named_after_the_start_of_the_recording() {
    let dated = Config {
        directory: String::from("/data"),
        format: String::from("%Y-%m-%dT%H:%M:%S"),
        ..config()
    };
    assert_eq!(dated.output_pattern(), "/data/%Y-%m-%dT%H:%M:%S.mkv");
    let start = Timestamp { seconds: 1_655_984_940, nanos: 0, offset: 0 };
    assert_eq!(dated.output_file(start), Some(String::from("/data/2022-06-23T11:49:00.mkv")));
}

#[test]
fn output_pattern_replaces_the_extension() {
    let named = Config { directory: String::from("/d"), format: String::from("out.avi"), ..config() };
    assert_eq!(named.output_pattern(), "/d/out.mkv");
    let bare = Config { directory: String::from("/d/"), format: String::from("output"), ..config() };
    assert_eq!(bare.output_pattern(), "/d/output.mkv");
}

#[test]
fn output_file_needs_a_valid_format() {
    let odd = Config { format: String::from("%Q"), ..config() };
    assert_eq!(odd.output_file(Timestamp { seconds: 0, nanos: 0, offset: 0 }), None);
}

#[test]
fn error_messages() {
    assert_eq!(ErrorKind::ConfigNotFound.message(), "no valid config path found");
    assert_eq!(ErrorKind::BrokenConfig(String::from("line 3")).message(), "line 3");
    assert_eq!(ErrorKind::InvalidCameraIndex.message(), "unable to open camera by index");
    assert_eq!(ErrorKind::InvalidVideoFile.message(), "unable to open video file");
    assert_eq!(ErrorKind::InvalidOutput.message(), "unable to open video output file");
    assert_eq!(ErrorKind::FrameDropped.message(), "");
    assert_eq!(ErrorKind::EmptyFrame.message(), "empty video frame");
    assert_eq!(ErrorKind::TextOverlayFail.message(), "unable to print text overlay");
}

#[test]
fn error_taxonomy() {
    assert!(ErrorKind::FrameDropped.transient());
    assert!(ErrorKind::TextOverlayFail.transient());
    assert!(!ErrorKind::EmptyFrame.transient());
    assert!(!ErrorKind::InvalidOutput.transient());
    assert!(ErrorKind::ConfigNotFound.setup_fatal());
    assert!(!ErrorKind::BrokenConfig(String::new()).setup_fatal());
    assert!(!ErrorKind::BrokenConfig(String::new()).transient());
    assert!(ErrorKind::InvalidCameraIndex.setup_fatal());
    assert!(ErrorKind::InvalidVideoFile.setup_fatal());
    assert!(ErrorKind::InvalidOutput.setup_fatal());
    assert!(!ErrorKind::EmptyFrame.setup_fatal());
    assert!(!ErrorKind::FrameDropped.setup_fatal());
}

#[test]
fn home_is_the_first_of_the_base_directories() {
    let found = Some((String::from("/home/bee"), String::from("/home/bee/.config")));
    assert_eq!(home_in(found), Some(String::from("/home/bee")));
    assert_eq!(home_in(None), None);
}

#[test]
fn default_configuration_needs_an_output_directory() {
    assert_eq!(Config::default_in(None), None);
    assert_eq!(
        Config::default_in(Some(String::from("/home/bee"))),
        Some(Config::with_directory(String::from("/home/bee")))
    );
}
