use vstd::prelude::*;

verus! {

/// Error kinds.
#[derive(Debug, PartialEq, Eq)]
pub enum ErrorKind {
    /// Occurs when config file path cannot be determined.
    ConfigNotFound,
    /// Occurs when parsing a broken configuration file.
    BrokenConfig(String),
    /// Occurs when the capture is unable to open the camera.
    InvalidCameraIndex,
    /// Occurs when the capture is unable to open the video file.
    InvalidVideoFile,
    /// Occurs when the writer is unable to open the video output file.
    InvalidOutput,
    /// Occurs when a capture read, or the encoding of one frame, fails.
    FrameDropped,
    /// Occurs when the capture returns an empty frame.
    EmptyFrame,
    /// Occurs when the writer fails to print the text overlay on a frame.
    TextOverlayFail,
}

impl ErrorKind {
    /// The description of the error case; empty where there is nothing to add.
    pub open spec fn description(self) -> Seq<char> {
        match self {
            ErrorKind::ConfigNotFound => "no valid config path found"@,
            ErrorKind::BrokenConfig(msg) => msg@,
            ErrorKind::InvalidCameraIndex => "unable to open camera by index"@,
            ErrorKind::InvalidVideoFile => "unable to open video file"@,
            ErrorKind::InvalidOutput => "unable to open video output file"@,
            ErrorKind::FrameDropped => Seq::empty(),
            ErrorKind::EmptyFrame => "empty video frame"@,
            ErrorKind::TextOverlayFail => "unable to print text overlay"@,
        }
    }

    /// Whether the worker that meets this error logs it and goes on.
    pub open spec fn is_transient(self) -> bool {
        self is FrameDropped || self is TextOverlayFail
    }

    /// Whether this error aborts the program before the pipeline starts: the
    /// capture source or the output cannot be opened, or a required system
    /// path cannot be determined. A broken configuration file is none of
    /// these: the program goes on with the default configuration.
    pub open spec fn is_setup_fatal(self) -> bool {
        self is ConfigNotFound || self is InvalidCameraIndex || self is InvalidVideoFile
            || self is InvalidOutput
    }

    /// Description of the error case, where relevant.
    pub fn message(&self) -> (text: String)
        ensures
            text@ == self.description(),
    {
        match self {
            ErrorKind::ConfigNotFound => "no valid config path found".to_owned(),
            ErrorKind::BrokenConfig(msg) => msg.clone(),
            ErrorKind::InvalidCameraIndex => "unable to open camera by index".to_owned(),
            ErrorKind::InvalidVideoFile => "unable to open video file".to_owned(),
            ErrorKind::InvalidOutput => "unable to open video output file".to_owned(),
            ErrorKind::FrameDropped => String::new(),
            ErrorKind::EmptyFrame => "empty video frame".to_owned(),
            ErrorKind::TextOverlayFail => "unable to print text overlay".to_owned(),
        }
    }

    /// Tells the errors that a worker survives from the others.
    pub fn transient(&self) -> (r: bool)
        ensures
            r == self.is_transient(),
    {
        match self {
            ErrorKind::FrameDropped => true,
            ErrorKind::TextOverlayFail => true,
            _ => false,
        }
    }

    /// Tells the errors that end the program at start-up from the others.
    pub fn setup_fatal(&self) -> (r: bool)
        ensures
            r == self.is_setup_fatal(),
    {
        match self {
            ErrorKind::ConfigNotFound => true,
            ErrorKind::InvalidCameraIndex => true,
            ErrorKind::InvalidVideoFile => true,
            ErrorKind::InvalidOutput => true,
            _ => false,
        }
    }
}

} // verus!
