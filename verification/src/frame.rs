use crate::paths::text_of;
use std::fmt::Write;
use vstd::prelude::*;

verus! {

/// Color channels of a pixel.
pub const CHANNELS: usize = 3;

/// What `chrono::DateTime::format` prints for the instant `seconds` and
/// `nanos` after the start of 1970 in UTC, seen from a zone `offset` seconds
/// east of it, with the format string `pattern`; nothing where the instant or
/// the offset is out of the range of `chrono` or the pattern is not valid.
pub uninterp spec fn formatted_instant(seconds: i64, nanos: u32, offset: i32, pattern: Seq<char>) -> Option<Seq<char>>;

/// Builds the `chrono::DateTime` of the instant in the zone, with
/// `chrono::FixedOffset::east_opt` and `chrono::DateTime::from_timestamp`, and
/// prints it with `chrono::DateTime::format`. Nothing is claimed of the text
/// but that it depends on the four arguments alone.
#[verifier::external_body]
fn format_instant(seconds: i64, nanos: u32, offset: i32, pattern: &str) -> (text: Option<String>)
    ensures
        text_of(text) == formatted_instant(seconds, nanos, offset, pattern@),
{
    let zone = chrono::FixedOffset::east_opt(offset)?;
    let instant = chrono::DateTime::from_timestamp(seconds, nanos)?.with_timezone(&zone);
    let mut text = String::new();
    match write!(text, "{}", instant.format(pattern)) {
        Ok(()) => Some(text),
        Err(_) => None,
    }
}

/// How far two channel values lie apart.
pub open spec fn distance(left: u8, right: u8) -> u8 {
    if left >= right {
        (left - right) as u8
    } else {
        (right - left) as u8
    }
}

/// The per-element absolute difference between two buffers of one length.
pub open spec fn difference(left: Seq<u8>, right: Seq<u8>) -> Seq<u8> {
    Seq::new(left.len(), |i: int| distance(left[i], right[i]))
}

/// The instant at which a frame was captured, with the offset of the local
/// time zone from UTC at that instant.
#[derive(Debug, Clone, Copy, PartialEq, Eq, Structural)]
pub struct Timestamp {
    /// Seconds since the start of 1970 in UTC.
    pub seconds: i64,
    /// Nanoseconds since the last full second.
    pub nanos: u32,
    /// Seconds that local time is ahead of UTC.
    pub offset: i32,
}

impl Timestamp {
    /// Nanoseconds since the start of 1970 in UTC: the key by which
    /// timestamps are ordered.
    pub open spec fn instant(self) -> int {
        self.seconds * 1_000_000_000 + self.nanos
    }

    /// The local date and time in the format `pattern`.
    pub open spec fn formatted(self, pattern: Seq<char>) -> Option<Seq<char>> {
        formatted_instant(self.seconds, self.nanos, self.offset, pattern)
    }

    /// Whether this instant lies before `other`.
    pub fn precedes(&self, other: &Timestamp) -> (before: bool)
        ensures
            before == (self.instant() < other.instant()),
    {
        let mine: i128 = self.seconds as i128 * 1_000_000_000 + self.nanos as i128;
        let theirs: i128 = other.seconds as i128 * 1_000_000_000 + other.nanos as i128;
        mine < theirs
    }

    /// Formats the local date and time per the format string `pattern`.
    /// Returns nothing where the timestamp or the pattern is not valid.
    pub fn format(&self, pattern: &str) -> (text: Option<String>)
        ensures
            text_of(text) == self.formatted(pattern@),
    {
        format_instant(self.seconds, self.nanos, self.offset, pattern)
    }
}

/// An owned 2D pixel buffer: rows of pixels of three 8-bit channels each.
#[derive(Debug, PartialEq, Eq)]
pub struct Image {
    rows: usize,
    cols: usize,
    data: Vec<u8>,
}

impl View for Image {
    type V = Seq<u8>;

    closed spec fn view(&self) -> Seq<u8> {
        self.data@
    }
}

impl Image {
    pub closed spec fn height(&self) -> nat {
        self.rows as nat
    }

    pub closed spec fn width(&self) -> nat {
        self.cols as nat
    }

    /// The buffer holds exactly the channels of every pixel.
    pub open spec fn wf(&self) -> bool {
        self@.len() == self.height() * self.width() * CHANNELS
    }

    /// An image holds no content where its buffer holds nothing.
    pub open spec fn blank(&self) -> bool {
        self@.len() == 0
    }

    /// The image without content.
    pub fn empty() -> (image: Self)
        ensures
            image.wf(),
            image.blank(),
            image.height() == 0,
            image.width() == 0,
    {
        Image { rows: 0, cols: 0, data: Vec::new() }
    }

    /// The image of `rows` by `cols` pixels whose channels are `data`, row by
    /// row. Returns nothing where `data` is of another length.
    pub fn new(rows: usize, cols: usize, data: Vec<u8>) -> (image: Option<Self>)
        ensures
            data@.len() == rows * cols * CHANNELS <==> image is Some,
            image matches Some(made) ==> made.wf() && made@ == data@ && made.height() == rows
                && made.width() == cols,
    {
        let held = data.len();
        let pixels = match rows.checked_mul(cols) {
            Some(pixels) => pixels,
            None => {
                assert(rows * cols * CHANNELS >= rows * cols) by (nonlinear_arith)
                    requires
                        CHANNELS == 3,
                ;
                return None;
            },
        };
        let length = match pixels.checked_mul(CHANNELS) {
            Some(length) => length,
            None => {
                assert(pixels * CHANNELS == rows * cols * CHANNELS);
                return None;
            },
        };
        assert(length == rows * cols * CHANNELS);
        if held == length {
            Some(Image { rows, cols, data })
        } else {
            None
        }
    }

    /// The image of `rows` by `cols` pixels that is black all over.
    pub fn zeros(rows: usize, cols: usize) -> (image: Self)
        requires
            rows * cols * CHANNELS <= usize::MAX,
        ensures
            image.wf(),
            image.height() == rows,
            image.width() == cols,
            image@ == Seq::new((rows * cols * CHANNELS) as nat, |i: int| 0u8),
    {
        assert(rows * cols <= rows * cols * CHANNELS) by (nonlinear_arith)
            requires
                CHANNELS == 3,
        ;
        let length: usize = rows * cols * CHANNELS;
        let data: Vec<u8> = vec![0u8; length];
        assert(data@ =~= Seq::new((rows * cols * CHANNELS) as nat, |i: int| 0u8));
        Image { rows, cols, data }
    }

    /// Calculates the per-element absolute difference between this image and
    /// `other`, which has the same size.
    pub fn abs_diff(&self, other: &Image) -> (apart: Self)
        requires
            self@.len() == other@.len(),
        ensures
            apart@ == difference(self@, other@),
            apart.height() == self.height(),
            apart.width() == self.width(),
    {
        let length = self.data.len();
        let mut data: Vec<u8> = Vec::with_capacity(length);
        let mut at: usize = 0;
        while at < length
            invariant
                at <= length,
                length == self.data@.len(),
                length == other.data@.len(),
                data@.len() == at,
                forall|i: int| 0 <= i < at ==> data@[i] == distance(self.data@[i], other.data@[i]),
            decreases length - at,
        {
            let left = self.data[at];
            let right = other.data[at];
            let apart: u8 = if left >= right {
                left - right
            } else {
                right - left
            };
            data.push(apart);
            at = at + 1;
        }
        assert(data@ =~= difference(self@, other@));
        Image { rows: self.rows, cols: self.cols, data }
    }

    /// Number of rows of pixels.
    pub fn rows(&self) -> (rows: usize)
        ensures
            rows == self.height(),
    {
        self.rows
    }

    /// Number of pixels in a row.
    pub fn cols(&self) -> (cols: usize)
        ensures
            cols == self.width(),
    {
        self.cols
    }

    /// The channels of the pixels, row by row.
    pub fn data(&self) -> (data: &Vec<u8>)
        ensures
            data@ == self@,
    {
        &self.data
    }

    /// Gives the buffer back.
    pub fn into_data(self) -> (data: Vec<u8>)
        ensures
            data@ == self@,
    {
        self.data
    }

    /// Returns true if the image has no content.
    pub fn is_empty(&self) -> (empty: bool)
        ensures
            empty == self.blank(),
    {
        self.data.len() == 0
    }

    /// Whether the image has `rows` by `cols` pixels and a buffer to match.
    pub fn has_size(&self, rows: usize, cols: usize) -> (fits: bool)
        requires
            rows * cols * CHANNELS <= usize::MAX,
        ensures
            fits == (self.height() == rows && self.width() == cols && self@.len() == rows * cols
                * CHANNELS),
    {
        assert(rows * cols <= rows * cols * CHANNELS) by (nonlinear_arith)
            requires
                CHANNELS == 3,
        ;
        self.rows == rows && self.cols == cols && self.data.len() == rows * cols * CHANNELS
    }
}

/// Captured Frame.
#[derive(Debug, PartialEq, Eq)]
pub struct Frame {
    /// The video frame itself.
    pub frame: Image,
    /// The instant of capture.
    pub datetime: Timestamp,
}

impl Frame {
    /// A frame without content marks the end of the stream.
    pub open spec fn blank(&self) -> bool {
        self.frame.blank()
    }

    /// Returns true if the frame has no content.
    pub fn is_empty(&self) -> (empty: bool)
        ensures
            empty == self.blank(),
    {
        self.frame.is_empty()
    }
}

} // verus!
