use crate::error::ErrorKind;
use crate::frame::{Frame, Image, Timestamp};
use vstd::prelude::*;

verus! {

/// A property of a capture device that is asked for when it is opened.
#[derive(Debug, Clone, Copy, PartialEq, Eq, Structural)]
pub enum Property {
    FrameWidth,
    FrameHeight,
    Fps,
}

/// Where the frames come from: a live camera or a video file, never both.
#[derive(Debug, PartialEq, Eq)]
pub enum Source {
    /// The camera of the given index, asked for a frame size and a framerate.
    Camera { index: i32, height: i32, width: i32, fps: i32 },
    /// The video file at the given path.
    File { path: String },
}

/// The properties that a camera is opened with, in the order in which they
/// are handed to the device: width, height, framerate. They are advisory: the
/// device substitutes the closest values it supports, so the actual values
/// are to be asked of it once it is open.
pub open spec fn requested(height: i32, width: i32, fps: i32) -> Seq<(Property, i32)> {
    seq![(Property::FrameWidth, width), (Property::FrameHeight, height), (Property::Fps, fps)]
}

/// What one read of the capture device comes to: a read that failed drops
/// one frame while the source is still live; a read that returned no content
/// ends the stream; any other is a frame, stamped with the time of the read.
pub open spec fn grabbed(read: Option<Image>, now: Timestamp) -> Result<Frame, ErrorKind> {
    match read {
        None => Err(ErrorKind::FrameDropped),
        Some(image) => if image.blank() {
            Err(ErrorKind::EmptyFrame)
        } else {
            Ok(Frame { frame: image, datetime: now })
        },
    }
}

/// Video frame grabber: what the pipeline knows of the capture handle that
/// the surrounding program holds.
#[derive(Debug)]
pub struct Grabber {
    source: Source,
    released: bool,
}

impl Grabber {
    /// The source that was opened.
    pub closed spec fn source(&self) -> Source {
        self.source
    }

    /// Whether the capture handle has been released.
    pub closed spec fn released(&self) -> bool {
        self.released
    }

    /// Generate the properties that a camera is opened with.
    pub fn camera_settings(height: i32, width: i32, fps: i32) -> (settings: Vec<(Property, i32)>)
        ensures
            settings@ == requested(height, width, fps),
    {
        let mut settings: Vec<(Property, i32)> = Vec::new();
        settings.push((Property::FrameWidth, width));
        settings.push((Property::FrameHeight, height));
        settings.push((Property::Fps, fps));
        assert(settings@ =~= requested(height, width, fps));
        settings
    }

    /// Create an instance of the grabber from a camera input, given whether
    /// the device could be opened.
    pub fn new(index: i32, height: i32, width: i32, fps: i32, opened: bool) -> (grabber: Result<
        Self,
        ErrorKind,
    >)
        ensures
            !opened ==> grabber == Err::<Self, ErrorKind>(ErrorKind::InvalidCameraIndex),
            opened ==> grabber is Ok && !grabber->Ok_0.released() && grabber->Ok_0.source() == (
            Source::Camera { index, height, width, fps }),
    {
        match opened {
            true => Ok(Grabber { source: Source::Camera { index, height, width, fps }, released: false }),
            false => Err(ErrorKind::InvalidCameraIndex),
        }
    }

    /// Create an instance of the grabber from a video file input, given
    /// whether the file could be opened.
    pub fn from_file(video: String, opened: bool) -> (grabber: Result<Self, ErrorKind>)
        ensures
            !opened ==> grabber == Err::<Self, ErrorKind>(ErrorKind::InvalidVideoFile),
            opened ==> grabber is Ok && !grabber->Ok_0.released() && grabber->Ok_0.source() == (
            Source::File { path: video }),
    {
        match opened {
            true => Ok(Grabber { source: Source::File { path: video }, released: false }),
            false => Err(ErrorKind::InvalidVideoFile),
        }
    }

    /// Whether the frames come from a video file.
    pub fn from_video(&self) -> (file: bool)
        ensures
            file == (self.source() is File),
    {
        match &self.source {
            Source::File { .. } => true,
            Source::Camera { .. } => false,
        }
    }

    /// Whether the capture handle has been released.
    pub fn is_released(&self) -> (released: bool)
        ensures
            released == self.released(),
    {
        self.released
    }

    /// Turns what one read of the capture device returned, and the time of
    /// the read, into a frame or an error.
    pub fn grab(&self, read: Option<Image>, now: Timestamp) -> (frame: Result<Frame, ErrorKind>)
        ensures
            frame == grabbed(read, now),
    {
        match read {
            None => Err(ErrorKind::FrameDropped),
            Some(image) => {
                if image.is_empty() {
                    Err(ErrorKind::EmptyFrame)
                } else {
                    Ok(Frame { frame: image, datetime: now })
                }
            },
        }
    }

    /// Teardown of the capture handle. Returns whether the handle is to be
    /// released now, which is so the first time only.
    pub fn release(&mut self) -> (now: bool)
        ensures
            now == !old(self).released(),
            final(self).released(),
            final(self).source() == old(self).source(),
    {
        let now = !self.released;
        self.released = true;
        now
    }
}

} // verus!
