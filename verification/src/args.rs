use crate::codec::Codec;
use vstd::prelude::*;

verus! {

/// The codec that answers to `name` on the command line, if any.
pub open spec fn codec_named(name: Seq<char>) -> Option<Codec> {
    if name == "h264"@ {
        Some(Codec::H264)
    } else if name == "mjpg"@ {
        Some(Codec::MJPG)
    } else if name == "xvid"@ {
        Some(Codec::XVID)
    } else if name == "mp4v"@ {
        Some(Codec::MP4V)
    } else {
        None
    }
}

/// Whether two string slices hold the same text.
fn same_text(left: &str, right: &str) -> (same: bool)
    ensures
        same == (left@ == right@),
{
    left.to_owned() == right.to_owned()
}

/// Custom parser for `codec` field.
pub fn parse_codec(codec: &str) -> (parsed: Result<Codec, String>)
    ensures
        match codec_named(codec@) {
            Some(known) => parsed == Ok::<Codec, String>(known),
            None => parsed is Err && parsed->Err_0@ == "unsupported codec"@,
        },
{
    if same_text(codec, "h264") {
        Ok(Codec::H264)
    } else if same_text(codec, "mjpg") {
        Ok(Codec::MJPG)
    } else if same_text(codec, "xvid") {
        Ok(Codec::XVID)
    } else if same_text(codec, "mp4v") {
        Ok(Codec::MP4V)
    } else {
        Err("unsupported codec".to_owned())
    }
}

/// Custom parser for `directory` field. Takes the directory with `~`
/// expanded, whether it exists, and whether it could be created where it did
/// not.
pub fn parse_directory(directory: String, is_dir: bool, created: bool) -> (parsed: Result<
    String,
    String,
>)
    ensures
        is_dir || created ==> parsed == Ok::<String, String>(directory),
        !is_dir && !created ==> parsed is Err && parsed->Err_0@
            == "unable to create specified directory"@,
{
    if !is_dir && !created {
        return Err("unable to create specified directory".to_owned());
    }
    Ok(directory)
}

/// Custom parser for `video` field. Takes the path with `~` expanded and
/// whether a file stands there.
pub fn parse_video(video: String, is_file: bool) -> (parsed: Result<String, String>)
    ensures
        is_file ==> parsed == Ok::<String, String>(video),
        !is_file ==> parsed is Err && parsed->Err_0@ == "the given path is not a file"@,
{
    match is_file {
        true => Ok(video),
        false => Err("the given path is not a file".to_owned()),
    }
}

/// Command line options.
#[derive(Debug, PartialEq, Eq)]
pub struct Args {
    /// Capture camera index.
    pub index: Option<u8>,
    /// Video file as input.
    pub video: Option<String>,
    /// Video capture frame height.
    pub height: Option<u16>,
    /// Video capture frame width.
    pub width: Option<u16>,
    /// Video capture framerate.
    pub framerate: Option<u8>,
    /// Video codec.
    pub codec: Option<Codec>,
    /// Output video directory.
    pub directory: Option<String>,
    /// Output video filename format.
    pub format: Option<String>,
    /// Date&Time video overlay.
    pub overlay: bool,
    /// Disable colored output.
    pub no_color: bool,
    /// Mute standard output.
    pub quiet: bool,
}

} // verus!
