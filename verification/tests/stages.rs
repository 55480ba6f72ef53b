use bombuscv_rs::color::{
    color_choice, color_choice_on, Color, ColorChoice, Colorizer, MsgType, Stream, Style,
};
use bombuscv_rs::error::ErrorKind;
use bombuscv_rs::frame::{Frame, Image, Timestamp};
use bombuscv_rs::grabber::{Grabber, Property};
use bombuscv_rs::queue::Channel;
use bombuscv_rs::writer::{
    WriteEvent, WriteStep, Writer, OVERLAY_BASELINE, OVERLAY_LEFT, OVERLAY_SCALE, OVERLAY_SHADE,
    OVERLAY_THICKNESS,
};

fn picture(value: u8) -> Image {
    Image::new(1, 1, vec![value; 3]).unwrap()
}

#[test]
fn timestamp_is_formatted_in_its_own_zone() {
    let utc = Timestamp { seconds: 1_655_984_940, nanos: 0, offset: 0 };
    assert_eq!(utc.format("%Y-%m-%d %H:%M:%S"), Some(String::from("2022-06-23 11:49:00")));
    let east = Timestamp { seconds: 1_655_984_940, nanos: 0, offset: 7200 };
    assert_eq!(east.format("%Y-%m-%d %H:%M:%S"), Some(String::from("2022-06-23 13:49:00")));
    let west = Timestamp { seconds: 0, nanos: 0, offset: -3600 };
    assert_eq!(west.format("%Y-%m-%d %H:%M:%S"), Some(String::from("1969-12-31 23:00:00")));
    let fine = Timestamp { seconds: 0, nanos: 123_000_000, offset: 0 };
    assert_eq!(fine.format("%S%.3f"), Some(String::from("00.123")));
}

#[test]
fn timestamp_out_of_range_has_no_text() {
    let far = Timestamp { seconds: i64::MAX, nanos: 0, offset: 0 };
    assert_eq!(far.format("%Y"), None);
    let odd = Timestamp { seconds: 0, nanos: 0, offset: 86_400 };
    assert_eq!(odd.format("%Y"), None);
    let odd = Timestamp { seconds: 0, nanos: 2_000_000_000, offset: 0 };
    assert_eq!(odd.format("%Y"), None);
    let fine = Timestamp { seconds: 0, nanos: 0, offset: 0 };
    assert_eq!(fine.format("%"), None);
    assert_eq!(fine.format(""), Some(String::new()));
}

#[test]
fn timestamps_are_ordered_by_their_instant() {
    let early = Timestamp { seconds: 5, nanos: 999_999_999, offset: 0 };
    let late = Timestamp { seconds: 6, nanos: 0, offset: -7200 };
    assert!(early.precedes(&late));
    assert!(!late.precedes(&early));
    assert!(!early.precedes(&early));
    let low = Timestamp { seconds: i64::MIN, nanos: 0, offset: 0 };
    let high = Timestamp { seconds: i64::MAX, nanos: 1_999_999_999, offset: 0 };
    assert!(low.precedes(&high));
    let leap = Timestamp { seconds: 5, nanos: 1_500_000_000, offset: 0 };
    assert!(late.precedes(&leap));
}

#[test]
fn camera_settings_ask_for_width_height_and_framerate() {
    assert_eq!(
        Grabber::camera_settings(1080, 1920, 60),
        vec![(Property::FrameWidth, 1920), (Property::FrameHeight, 1080), (Property::Fps, 60)]
    );
}

#[test]
fn grabber_needs_an_open_source() {
    assert_eq!(Grabber::new(0, 480, 640, 60, false).err(), Some(ErrorKind::InvalidCameraIndex));
    assert_eq!(
        Grabber::from_file(String::from("a.mkv"), false).err(),
        Some(ErrorKind::InvalidVideoFile)
    );
    let camera = Grabber::new(0, 480, 640, 60, true).unwrap();
    assert!(!camera.from_video());
    assert!(!camera.is_released());
    let file = Grabber::from_file(String::from("a.mkv"), true).unwrap();
    assert!(file.from_video());
    assert!(!file.is_released());
}

#[test]
fn grab_tells_frames_from_failures() {
    let grabber = Grabber::new(0, 480, 640, 60, true).unwrap();
    let now = Timestamp { seconds: 3, nanos: 4, offset: 5 };
    assert_eq!(grabber.grab(None, now), Err(ErrorKind::FrameDropped));
    assert_eq!(grabber.grab(Some(Image::empty()), now), Err(ErrorKind::EmptyFrame));
    assert_eq!(
        grabber.grab(Some(picture(9)), now),
        Ok(Frame { frame: picture(9), datetime: now })
    );
}

#[test]
fn grabber_release_is_idempotent() {
    let mut grabber = Grabber::new(0, 480, 640, 60, true).unwrap();
    assert!(grabber.release());
    assert!(grabber.is_released());
    assert!(!grabber.release());
    assert!(!grabber.release());
    assert!(grabber.is_released());
}

#[test]
fn writer_needs_an_open_output() {
    assert_eq!(Writer::new(true, false).err(), Some(ErrorKind::InvalidOutput));
    let writer = Writer::new(true, true).unwrap();
    assert!(writer.stamps());
    assert!(!writer.is_released());
    assert!(!Writer::new(false, true).unwrap().stamps());
}

#[test]
fn caption_is_the_local_time_of_capture() {
    let frame = Frame {
        frame: picture(1),
        datetime: Timestamp { seconds: 1_655_984_940, nanos: 5, offset: 7200 },
    };
    let stamping = Writer::new(true, true).unwrap();
    assert_eq!(stamping.caption(&frame), Ok(Some(String::from("2022-06-23 13:49:00"))));
    let plain = Writer::new(false, true).unwrap();
    assert_eq!(plain.caption(&frame), Ok(None));
}

#[test]
fn caption_of_an_impossible_time_fails() {
    let frame =
        Frame { frame: picture(1), datetime: Timestamp { seconds: i64::MIN, nanos: 0, offset: 0 } };
    let stamping = Writer::new(true, true).unwrap();
    assert_eq!(stamping.caption(&frame), Err(ErrorKind::TextOverlayFail));
    let plain = Writer::new(false, true).unwrap();
    assert_eq!(plain.caption(&frame), Ok(None));
}

#[test]
fn write_outcomes() {
    assert_eq!(Writer::stamped(true), Ok(()));
    assert_eq!(Writer::stamped(false), Err(ErrorKind::TextOverlayFail));
    assert_eq!(Writer::encoded(true), Ok(()));
    assert_eq!(Writer::encoded(false), Err(ErrorKind::FrameDropped));
}

#[test]
fn writer_release_is_idempotent() {
    let mut writer = Writer::new(true, true).unwrap();
    assert!(writer.release());
    assert!(writer.is_released());
    assert!(!writer.release());
    assert!(writer.stamps());
}

#[test]
fn channel_keeps_order_and_bound() {
    let mut channel: Channel<u32> = Channel::new(3);
    assert_eq!(channel.capacity(), 3);
    assert!(channel.is_empty());
    assert_eq!(channel.receive(), None);
    assert_eq!(channel.send(1), Ok(()));
    assert_eq!(channel.send(2), Ok(()));
    assert!(!channel.is_full());
    assert_eq!(channel.send(3), Ok(()));
    assert!(channel.is_full());
    assert_eq!(channel.send(4), Err(4));
    assert_eq!(channel.len(), 3);
    assert_eq!(channel.receive(), Some(1));
    assert_eq!(channel.send(5), Ok(()));
    assert_eq!(channel.receive(), Some(2));
    assert_eq!(channel.receive(), Some(3));
    assert_eq!(channel.receive(), Some(5));
    assert_eq!(channel.receive(), None);
    assert!(channel.is_empty());
}

#[test]
fn channel_without_capacity_takes_nothing() {
    let mut channel: Channel<u8> = Channel::new(0);
    assert!(channel.is_full());
    assert_eq!(channel.send(1), Err(1));
    assert_eq!(channel.len(), 0);
}

#[test]
fn styles_of_the_message_types() {
    assert_eq!(
        MsgType::Info.style(),
        Style { color: Color::Green, bold: true, dimmed: false, stream: Stream::Stdout }
    );
    assert_eq!(
        MsgType::Warn.style(),
        Style { color: Color::Yellow, bold: true, dimmed: false, stream: Stream::Stderr }
    );
    assert_eq!(
        MsgType::Error.style(),
        Style { color: Color::Red, bold: true, dimmed: false, stream: Stream::Stderr }
    );
    assert_eq!(
        MsgType::Hint.style(),
        Style { color: Color::Cyan, bold: false, dimmed: true, stream: Stream::Stdout }
    );
    assert_eq!(MsgType::Info.stream(), Stream::Stdout);
    assert_eq!(MsgType::Hint.stream(), Stream::Stdout);
    assert_eq!(MsgType::Warn.stream(), Stream::Stderr);
    assert_eq!(MsgType::Error.stream(), Stream::Stderr);
}

#[test]
fn colors_need_a_terminal_and_no_switch() {
    assert_eq!(color_choice_on(false, true), ColorChoice::Auto);
    assert_eq!(color_choice_on(false, false), ColorChoice::Never);
    assert_eq!(color_choice_on(true, true), ColorChoice::Never);
    assert_eq!(color_choice_on(true, false), ColorChoice::Never);
    assert_eq!(color_choice(&MsgType::Info, true), ColorChoice::Never);
    assert_eq!(color_choice(&MsgType::Error, true), ColorChoice::Never);
    let asked = color_choice(&MsgType::Warn, false);
    assert!(asked == ColorChoice::Auto || asked == ColorChoice::Never);
}

#[test]
fn colorizer_texts() {
    let mut colorizer = Colorizer::new(MsgType::Error, true, "error", "unable to open video file");
    assert_eq!(colorizer.kind(), MsgType::Error);
    assert_eq!(colorizer.when(), ColorChoice::Never);
    assert_eq!(colorizer.text(), "error: unable to open video file");
    assert_eq!(colorizer.label(), "error:");
    assert_eq!(colorizer.rest(), " unable to open video file\n");
    colorizer.update("==> Input", "/dev/video0");
    assert_eq!(colorizer.text(), "==> Input: /dev/video0");
    assert_eq!(colorizer.kind(), MsgType::Error);
    assert_eq!(colorizer.when(), ColorChoice::Never);
}

#[test]
fn empty_colorizer() {
    let colorizer = Colorizer::empty(MsgType::Info, true);
    assert_eq!(colorizer.text(), ": ");
    assert_eq!(colorizer.label(), ":");
    assert_eq!(colorizer.rest(), " \n");
    assert_eq!(colorizer.when(), ColorChoice::Never);
    let on_terminal = Colorizer::empty_on(MsgType::Hint, false, true);
    assert_eq!(on_terminal.when(), ColorChoice::Auto);
    assert_eq!(on_terminal.kind(), MsgType::Hint);
    let piped = Colorizer::new_on(MsgType::Warn, false, false, "warning", "empty video frame");
    assert_eq!(piped.when(), ColorChoice::Never);
    assert_eq!(piped.text(), "warning: empty video frame");
}

#[test]
fn frame_with_caption_is_stamped_then_encoded() {
    let begin = Writer::write(WriteEvent::Begin(Some(String::from("2022-06-23 13:49:00"))));
    assert_eq!(begin, WriteStep::Stamp(String::from("2022-06-23 13:49:00")));
    assert_eq!(Writer::write(WriteEvent::Stamped(true)), WriteStep::Encode);
    assert_eq!(Writer::write(WriteEvent::Encoded(true)), WriteStep::Written);
}

#[test]
fn frame_without_caption_is_encoded_as_it_is() {
    assert_eq!(Writer::write(WriteEvent::Begin(None)), WriteStep::Encode);
    assert_eq!(
        Writer::write(WriteEvent::Encoded(false)),
        WriteStep::Failed(ErrorKind::FrameDropped)
    );
}

#[test]
fn nothing_is_encoded_after_a_failed_rendering() {
    assert_eq!(
        Writer::write(WriteEvent::Stamped(false)),
        WriteStep::Failed(ErrorKind::TextOverlayFail)
    );
}

#[test]
fn overlay_is_white_in_the_top_left_corner() {
    assert_eq!(OVERLAY_LEFT, 10);
    assert_eq!(OVERLAY_BASELINE, 40);
    assert_eq!(OVERLAY_THICKNESS, 2);
    assert_eq!(OVERLAY_SCALE, 1);
    assert_eq!(OVERLAY_SHADE, 255);
}
