use crate::error::ErrorKind;
use crate::frame::Frame;
use crate::paths::text_of;
use vstd::prelude::*;

verus! {

/// Distance of the caption from the left edge of the frame, in pixels.
pub const OVERLAY_LEFT: i32 = 10;

/// Distance of the caption's baseline from the top edge of the frame, in
/// pixels.
pub const OVERLAY_BASELINE: i32 = 40;

/// Thickness of the caption's strokes, in pixels.
pub const OVERLAY_THICKNESS: i32 = 2;

/// Factor by which the base size of the caption's font is multiplied.
pub const OVERLAY_SCALE: i32 = 1;

/// Value of each color channel of the caption: white.
pub const OVERLAY_SHADE: i32 = 255;

/// What the sink reports of the writing of one frame.
#[derive(Debug, PartialEq, Eq)]
pub enum WriteEvent {
    /// The frame came in, with the caption to stamp on it, if any.
    Begin(Option<String>),
    /// The caption was rendered on the frame, or could not be.
    Stamped(bool),
    /// The frame was encoded and appended to the output, or could not be.
    Encoded(bool),
}

/// What the sink does next with the frame that it writes.
#[derive(Debug, PartialEq, Eq)]
pub enum WriteStep {
    /// Render the caption on the frame.
    Stamp(String),
    /// Encode the frame and append it to the output.
    Encode,
    /// The frame is in the output.
    Written,
    /// The frame is not in the output, for the reason given: log it and go
    /// on with the next frame.
    Failed(ErrorKind),
}

/// The step that follows `event`: a frame with a caption is stamped, then
/// encoded; one without is encoded as it is. A frame on which the caption
/// could not be rendered is not encoded at all.
pub open spec fn step_after(event: WriteEvent) -> WriteStep {
    match event {
        WriteEvent::Begin(Some(text)) => WriteStep::Stamp(text),
        WriteEvent::Begin(None) => WriteStep::Encode,
        WriteEvent::Stamped(true) => WriteStep::Encode,
        WriteEvent::Stamped(false) => WriteStep::Failed(ErrorKind::TextOverlayFail),
        WriteEvent::Encoded(true) => WriteStep::Written,
        WriteEvent::Encoded(false) => WriteStep::Failed(ErrorKind::FrameDropped),
    }
}

/// The text that the overlay shows for `frame`: its local date and time of
/// capture, down to the second.
pub open spec fn caption_of(frame: Frame) -> Option<Seq<char>> {
    frame.datetime.formatted("%Y-%m-%d %H:%M:%S"@)
}

/// What is to be done with `frame` before it is encoded: nothing where the
/// overlay is off, else its caption is stamped on it. A frame whose caption
/// cannot be made is not written.
pub open spec fn stamp_of(overlay: bool, frame: Frame) -> Result<Option<Seq<char>>, ErrorKind> {
    if !overlay {
        Ok(None)
    } else {
        match caption_of(frame) {
            Some(text) => Ok(Some(text)),
            None => Err(ErrorKind::TextOverlayFail),
        }
    }
}

/// Video frame writer: what the pipeline knows of the output handle that the
/// surrounding program holds.
///
/// A frame on which the overlay cannot be rendered is reported with
/// `TextOverlayFail` and skipped: it is not encoded without its stamp.
#[derive(Debug)]
pub struct Writer {
    overlay: bool,
    released: bool,
}

impl Writer {
    /// Whether each frame is stamped with its date and time.
    pub closed spec fn overlay(&self) -> bool {
        self.overlay
    }

    /// Whether the output handle has been released.
    pub closed spec fn released(&self) -> bool {
        self.released
    }

    /// Create an instance of the writer, given whether the output could be
    /// opened.
    pub fn new(overlay: bool, opened: bool) -> (writer: Result<Self, ErrorKind>)
        ensures
            !opened ==> writer == Err::<Self, ErrorKind>(ErrorKind::InvalidOutput),
            opened ==> writer is Ok && writer->Ok_0.overlay() == overlay
                && !writer->Ok_0.released(),
    {
        match opened {
            true => Ok(Writer { overlay, released: false }),
            false => Err(ErrorKind::InvalidOutput),
        }
    }

    /// Whether each frame is stamped with its date and time.
    pub fn stamps(&self) -> (overlay: bool)
        ensures
            overlay == self.overlay(),
    {
        self.overlay
    }

    /// Whether the output handle has been released.
    pub fn is_released(&self) -> (released: bool)
        ensures
            released == self.released(),
    {
        self.released
    }

    /// The text to stamp on `frame` before it is encoded, if any.
    pub fn caption(&self, frame: &Frame) -> (stamp: Result<Option<String>, ErrorKind>)
        ensures
            match stamp_of(self.overlay(), *frame) {
                Ok(text) => stamp is Ok && text_of(stamp->Ok_0) == text,
                Err(error) => stamp == Err::<Option<String>, ErrorKind>(error),
            },
    {
        if !self.overlay {
            return Ok(None);
        }
        match frame.datetime.format("%Y-%m-%d %H:%M:%S") {
            Some(text) => Ok(Some(text)),
            None => Err(ErrorKind::TextOverlayFail),
        }
    }

    /// What a rendering of the overlay comes to.
    pub fn stamped(rendered: bool) -> (outcome: Result<(), ErrorKind>)
        ensures
            rendered ==> outcome is Ok,
            !rendered ==> outcome == Err::<(), ErrorKind>(ErrorKind::TextOverlayFail),
    {
        if !rendered {
            return Err(ErrorKind::TextOverlayFail);
        }
        Ok(())
    }

    /// What an encoding of a frame comes to.
    pub fn encoded(appended: bool) -> (outcome: Result<(), ErrorKind>)
        ensures
            appended ==> outcome is Ok,
            !appended ==> outcome == Err::<(), ErrorKind>(ErrorKind::FrameDropped),
    {
        if !appended {
            return Err(ErrorKind::FrameDropped);
        }
        Ok(())
    }

    /// Write a frame to the video file, one step at a time: takes what the
    /// sink reports and tells it what to do next.
    pub fn write(event: WriteEvent) -> (step: WriteStep)
        ensures
            step == step_after(event),
    {
        match event {
            WriteEvent::Begin(Some(text)) => WriteStep::Stamp(text),
            WriteEvent::Begin(None) => WriteStep::Encode,
            WriteEvent::Stamped(rendered) => match Writer::stamped(rendered) {
                Ok(()) => WriteStep::Encode,
                Err(error) => WriteStep::Failed(error),
            },
            WriteEvent::Encoded(appended) => match Writer::encoded(appended) {
                Ok(()) => WriteStep::Written,
                Err(error) => WriteStep::Failed(error),
            },
        }
    }

    /// Teardown of the output handle. Returns whether the handle is to be
    /// released now, which is so the first time only.
    pub fn release(&mut self) -> (now: bool)
        ensures
            now == !old(self).released(),
            final(self).released(),
            final(self).overlay() == old(self).overlay(),
    {
        let now = !self.released;
        self.released = true;
        now
    }
}

} // verus!
