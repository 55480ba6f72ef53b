use crate::error::ErrorKind;
use crate::frame::{difference, Frame, Image, CHANNELS};
use vstd::prelude::*;

verus! {

/// Rows of the analysis resolution, at which frames are compared.
pub const ANALYSIS_ROWS: usize = 480;

/// Columns of the analysis resolution.
pub const ANALYSIS_COLS: usize = 640;

/// Side of the square kernel of the smoothing blur, in pixels.
pub const BLUR_KERNEL: i32 = 3;

/// Standard deviation of the smoothing blur, in both directions.
pub const BLUR_SIGMA: i32 = 21;

/// Intensity cutoff: a pixel of the blurred difference above it belongs to
/// the foreground mask.
pub const THRESHOLD: i32 = 30;

/// Value of the foreground in the mask.
pub const MASK_VALUE: i32 = 255;

/// Number of times the mask is dilated to merge nearby regions.
pub const DILATIONS: i32 = 3;

/// Whether `image` is at the analysis resolution.
pub open spec fn analysis_sized(image: &Image) -> bool {
    &&& image.wf()
    &&& image.height() == ANALYSIS_ROWS
    &&& image.width() == ANALYSIS_COLS
}

/// The buffer of `length` channel values that are all zero.
pub open spec fn all_zero(length: nat) -> Seq<u8> {
    Seq::new(length, |i: int| 0u8)
}

/// An image differs nowhere from itself: where the same analysis image is fed
/// twice in a row, the difference that the second call computes is zero in
/// every channel of every pixel.
pub proof fn lemma_same_image_differs_nowhere(image: Seq<u8>)
    ensures
        difference(image, image) == all_zero(image.len()),
{
    assert(difference(image, image) =~= all_zero(image.len()));
}

/// Motion detector: keeps the previous frame, at the analysis resolution, to
/// compare the next one with.
#[derive(Debug)]
pub struct MotionDetector {
    /// Previous frame to make comparisons.
    prev_frame: Image,
}

impl MotionDetector {
    /// The retained frame.
    pub closed spec fn reference(&self) -> Seq<u8> {
        self.prev_frame@
    }

    /// The retained frame is at the analysis resolution.
    pub closed spec fn wf(&self) -> bool {
        analysis_sized(&self.prev_frame)
    }

    /// Create an instance of the MotionDetector, whose retained frame is
    /// black all over.
    pub fn new() -> (detector: Self)
        ensures
            detector.wf(),
            detector.reference() == all_zero((ANALYSIS_ROWS * ANALYSIS_COLS * CHANNELS) as nat),
    {
        MotionDetector { prev_frame: Image::zeros(ANALYSIS_ROWS, ANALYSIS_COLS) }
    }

    /// Rejects the frame without content, which ends the stream.
    pub fn accept(frame: &Frame) -> (accepted: Result<(), ErrorKind>)
        ensures
            frame.blank() ==> accepted == Err::<(), ErrorKind>(ErrorKind::EmptyFrame),
            !frame.blank() ==> accepted is Ok,
    {
        if frame.is_empty() {
            return Err(ErrorKind::EmptyFrame);
        }
        Ok(())
    }

    /// Takes a frame scaled down to the analysis resolution, returns its
    /// per-pixel absolute difference from the retained frame and retains it
    /// in place of that frame, whatever the difference shows.
    pub fn advance(&mut self, analysis: Image) -> (apart: Image)
        requires
            old(self).wf(),
            analysis_sized(&analysis),
        ensures
            final(self).wf(),
            final(self).reference() == analysis@,
            analysis_sized(&apart),
            apart@ == difference(old(self).reference(), analysis@),
    {
        let apart = self.prev_frame.abs_diff(&analysis);
        self.prev_frame = analysis;
        apart
    }

    /// Motion is detected if and only if the mask made of the difference
    /// holds at least one connected region. On detection the frame goes on as
    /// it came in; otherwise it is discarded.
    pub fn classify(frame: Frame, regions: usize) -> (moved: Option<Frame>)
        ensures
            regions > 0 ==> moved == Some(frame),
            regions == 0 ==> moved is None,
    {
        if regions == 0 {
            None
        } else {
            Some(frame)
        }
    }
}

impl Default for MotionDetector {
    fn default() -> (detector: Self)
        ensures
            detector.wf(),
            detector.reference() == all_zero((ANALYSIS_ROWS * ANALYSIS_COLS * CHANNELS) as nat),
    {
        Self::new()
    }
}

} // verus!
