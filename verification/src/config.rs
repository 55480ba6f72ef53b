use crate::args::Args;
use crate::error::ErrorKind;
use crate::frame::{formatted_instant, Timestamp};
use crate::paths::{
    base_directories, holds_separator, home_directory, join, path_joined, path_with_extension,
    path_without_prefix, strip_prefix, text_of, with_extension,
};
use vstd::prelude::*;

verus! {

/// The text of an optional string slice.
pub open spec fn slice_of(text: Option<&str>) -> Option<Seq<char>> {
    match text {
        Some(held) => Some(held@),
        None => None,
    }
}

/// The path that `path` stands for when `~` names the directory `home`: a
/// path that does not begin with `~` stands for itself, one that does needs a
/// home directory to be known.
pub open spec fn expanded(path: Seq<char>, home: Option<Seq<char>>) -> Option<Seq<char>> {
    match path_without_prefix(path, "~"@) {
        None => Some(path),
        Some(rest) => match home {
            Some(directory) => Some(path_joined(directory, rest)),
            None => None,
        },
    }
}

/// Expands `~` in `path` to `home`. Returns nothing where the path begins
/// with `~` and no home directory is given.
pub fn expand_home_in(path: &str, home: Option<&str>) -> (full: Option<String>)
    ensures
        text_of(full) == expanded(path@, slice_of(home)),
{
    match strip_prefix(path, "~") {
        None => Some(path.to_owned()),
        Some(rest) => match home {
            Some(directory) => Some(join(directory, rest.as_str())),
            None => None,
        },
    }
}

/// Expands `~` in `path` to the absolute path of the user's home directory,
/// which is looked up only where the path begins with `~`. Returns nothing
/// where it is needed and cannot be found.
pub fn expand_home(path: &str) -> (full: Option<String>)
    ensures
        exists|home: Option<Seq<char>>| text_of(full) == #[trigger] expanded(path@, home),
        path_without_prefix(path@, "~"@) is None ==> text_of(full) == Some(path@),
{
    match strip_prefix(path, "~") {
        None => {
            let full = path.to_owned();
            assert(text_of(Some(full)) == expanded(path@, None));
            Some(full)
        },
        Some(rest) => match home_directory() {
            Some(directory) => {
                let full = join(directory.as_str(), rest.as_str());
                assert(text_of(Some(full)) == expanded(path@, Some(directory@)));
                Some(full)
            },
            None => {
                assert(text_of(None) == expanded(path@, None));
                None
            },
        },
    }
}

/// Default value for the capture camera index.
pub fn default_index() -> (index: u8)
    ensures
        index == 0,
{
    0
}

/// Default value for video capture frame height.
pub fn default_height() -> (height: u16)
    ensures
        height == 480,
{
    480
}

/// Default value for video capture frame width.
pub fn default_width() -> (width: u16)
    ensures
        width == 640,
{
    640
}

/// Default value for video capture framerate.
pub fn default_framerate() -> (framerate: u8)
    ensures
        framerate == 60,
{
    60
}

/// Default output video directory: the user's home directory, where one can
/// be found.
pub fn default_directory() -> (directory: Option<String>) {
    home_directory()
}

/// Default output video filename format, for example: `2022-06-23T11:49:00`.
pub fn default_format() -> (format: String)
    ensures
        format@ == "%Y-%m-%dT%H:%M:%S"@,
{
    "%Y-%m-%dT%H:%M:%S".to_owned()
}

/// Where the configuration file is looked for: at `custom`, with `~`
/// expanded, where a path of the user's own is given, else below the
/// directory for configuration files. Without base directories there is no
/// such place.
pub open spec fn located(
    custom: Option<Seq<char>>,
    directories: Option<(Seq<char>, Seq<char>)>,
) -> Result<Seq<char>, ErrorKind> {
    match directories {
        None => Err(ErrorKind::ConfigNotFound),
        Some(found) => match custom {
            Some(path) => match expanded(path, Some(found.0)) {
                Some(full) => Ok(full),
                None => Err(ErrorKind::ConfigNotFound),
            },
            None => Ok(path_joined(found.1, "bombuscv/config.toml"@)),
        },
    }
}

/// Whether `file` is the path `place`, or the error that stands in its place.
pub open spec fn names(file: Result<String, ErrorKind>, place: Result<Seq<char>, ErrorKind>) -> bool {
    match place {
        Ok(path) => file is Ok && file->Ok_0@ == path,
        Err(error) => file == Err::<String, ErrorKind>(error),
    }
}

/// The path of the configuration file, given the path that the user has
/// chosen for it, if any, and the home directory and the directory for
/// configuration files, if they were found.
pub fn config_file_in(custom: Option<&str>, directories: Option<(&str, &str)>) -> (file: Result<
    String,
    ErrorKind,
>)
    ensures
        names(
            file,
            located(
                slice_of(custom),
                match directories {
                    Some(found) => Some((found.0@, found.1@)),
                    None => None,
                },
            ),
        ),
{
    match directories {
        None => Err(ErrorKind::ConfigNotFound),
        Some(found) => match custom {
            Some(path) => match expand_home_in(path, Some(found.0)) {
                Some(full) => Ok(full),
                None => Err(ErrorKind::ConfigNotFound),
            },
            None => Ok(join(found.1, "bombuscv/config.toml")),
        },
    }
}

/// The path of the configuration file, given the path that the user has
/// chosen for it, if any. The base directories are looked up.
pub fn config_file(custom: Option<&str>) -> (file: Result<String, ErrorKind>)
    ensures
        exists|directories: Option<(Seq<char>, Seq<char>)>|
            names(file, #[trigger] located(slice_of(custom), directories)),
{
    let found = base_directories();
    let file = match &found {
        Some(pair) => config_file_in(custom, Some((pair.0.as_str(), pair.1.as_str()))),
        None => config_file_in(custom, None),
    };
    proof {
        let directories: Option<(Seq<char>, Seq<char>)> = match found {
            Some(pair) => Some((pair.0@, pair.1@)),
            None => None,
        };
        assert(names(file, located(slice_of(custom), directories)));
    }
    file
}

/// Configuration options.
#[derive(Debug, PartialEq, Eq)]
pub struct Config {
    /// Capture camera index.
    pub index: u8,
    /// Video file as input.
    pub video: Option<String>,
    /// Video capture frame height.
    pub height: u16,
    /// Video capture frame width.
    pub width: u16,
    /// Video capture framerate.
    pub framerate: u8,
    /// Output video directory.
    pub directory: String,
    /// Output video filename format.
    pub format: String,
    /// Date&Time video overlay.
    pub overlay: bool,
    /// Disable colored output.
    pub no_color: bool,
    /// Mute standard output.
    pub quiet: bool,
}

impl Config {
    /// Whether every option but the output directory has its default value.
    pub open spec fn is_default(self) -> bool {
        &&& self.index == 0
        &&& self.video is None
        &&& self.height == 480
        &&& self.width == 640
        &&& self.framerate == 60
        &&& self.format@ == "%Y-%m-%dT%H:%M:%S"@
        &&& !self.overlay
        &&& !self.no_color
        &&& !self.quiet
    }

    /// The configuration that results when the command line `args` override
    /// this one: an option given on the command line wins, a switch can only
    /// turn on, and a video file as input turns the overlay off unless the
    /// overlay is asked for on the command line too.
    pub open spec fn overridden(self, args: Args) -> Config {
        Config {
            index: if args.index is Some { args.index->0 } else { self.index },
            video: if args.video is Some { args.video } else { self.video },
            height: if args.height is Some { args.height->0 } else { self.height },
            width: if args.width is Some { args.width->0 } else { self.width },
            framerate: if args.framerate is Some { args.framerate->0 } else { self.framerate },
            directory: if args.directory is Some { args.directory->0 } else { self.directory },
            format: if args.format is Some { args.format->0 } else { self.format },
            overlay: args.overlay || (self.overlay && args.video is None),
            no_color: self.no_color || args.no_color,
            quiet: self.quiet || args.quiet,
        }
    }

    /// Default configuration, with `directory` as the output directory.
    pub fn with_directory(directory: String) -> (config: Self)
        ensures
            config.is_default(),
            config.directory == directory,
    {
        Config {
            index: default_index(),
            video: None,
            height: default_height(),
            width: default_width(),
            framerate: default_framerate(),
            directory,
            format: default_format(),
            overlay: false,
            no_color: false,
            quiet: false,
        }
    }

    /// Default configuration that writes to `directory`, where there is one:
    /// without an output directory there is no default configuration.
    pub fn default_in(directory: Option<String>) -> (config: Option<Self>)
        ensures
            directory is None <==> config is None,
            config matches Some(found) ==> found.is_default() && found.directory == directory->0,
    {
        match directory {
            Some(found) => Some(Config::with_directory(found)),
            None => None,
        }
    }

    /// Default configuration, which writes to the user's home directory.
    /// Returns nothing where no home directory can be found.
    pub fn default_config() -> (config: Option<Self>)
        ensures
            config matches Some(found) ==> found.is_default(),
    {
        Config::default_in(default_directory())
    }

    /// The pattern of the output video file: the filename format, with the
    /// extension `mkv`, below the output directory.
    pub open spec fn pattern(self) -> Seq<char> {
        path_joined(self.directory@, path_with_extension(self.format@, "mkv"@))
    }

    /// The pattern of the path of the output video file.
    pub fn output_pattern(&self) -> (pattern: String)
        ensures
            pattern@ == self.pattern(),
    {
        proof {
            reveal_strlit("mkv");
            assert(!holds_separator("mkv"@)) by {
                assert("mkv"@.len() == 3);
                assert("mkv"@[0] == 'm' && "mkv"@[1] == 'k' && "mkv"@[2] == 'v');
            }
        }
        let name = with_extension(self.format.as_str(), "mkv");
        join(self.directory.as_str(), name.as_str())
    }

    /// The path of the output video file for a recording that starts at
    /// `now`: the pattern, formatted with that date and time. Returns nothing
    /// where the pattern is no valid format.
    pub fn output_file(&self, now: Timestamp) -> (file: Option<String>)
        ensures
            text_of(file) == formatted_instant(now.seconds, now.nanos, now.offset, self.pattern()),
    {
        let pattern = self.output_pattern();
        now.format(pattern.as_str())
    }

    /// Override configuration with command line arguments.
    pub fn override_with_args(self, args: Args) -> (merged: Self)
        ensures
            merged == self.overridden(args),
    {
        let mut merged = self;
        if let Some(directory) = args.directory {
            merged.directory = directory;
        }
        if let Some(format) = args.format {
            merged.format = format;
        }
        if args.no_color {
            merged.no_color = true;
        }
        if args.quiet {
            merged.quiet = true;
        }
        // Input is video: disable overlay.
        if let Some(video) = args.video {
            merged.video = Some(video);
            if merged.overlay {
                merged.overlay = false;
            }
        }
        if let Some(index) = args.index {
            merged.index = index;
        }
        if let Some(height) = args.height {
            merged.height = height;
        }
        if let Some(width) = args.width {
            merged.width = width;
        }
        if let Some(framerate) = args.framerate {
            merged.framerate = framerate;
        }
        if args.overlay {
            merged.overlay = true;
        }
        merged
    }
}

} // verus!
