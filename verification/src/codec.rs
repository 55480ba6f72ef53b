use vstd::prelude::*;

verus! {

/// Video codecs.
#[derive(Debug, Clone, Copy, PartialEq, Eq, Structural)]
pub enum Codec {
    MJPG,
    XVID,
    MP4V,
    H264,
}

/// The four-character code made of `c1` to `c4`: `c1` in the lowest byte,
/// `c4` in the highest.
pub open spec fn packed(c1: char, c2: char, c3: char, c4: char) -> int {
    (c1 as u32) + (c2 as u32) * 0x100 + (c3 as u32) * 0x1_0000 + (c4 as u32) * 0x100_0000
}

/// Concatenates four ASCII characters to a four-character code.
pub fn pack(c1: char, c2: char, c3: char, c4: char) -> (code: i32)
    requires
        (c1 as u32) < 0x80,
        (c2 as u32) < 0x80,
        (c3 as u32) < 0x80,
        (c4 as u32) < 0x80,
    ensures
        code == packed(c1, c2, c3, c4),
{
    let b1: u32 = c1 as u32;
    let b2: u32 = c2 as u32;
    let b3: u32 = c3 as u32;
    let b4: u32 = c4 as u32;
    let code: u32 = b1 + b2 * 0x100 + b3 * 0x1_0000 + b4 * 0x100_0000;
    code as i32
}

impl Codec {
    /// The four characters that name the codec to the encoder.
    pub open spec fn tag(self) -> (char, char, char, char) {
        match self {
            Codec::MJPG => ('M', 'J', 'P', 'G'),
            Codec::XVID => ('X', 'V', 'I', 'D'),
            Codec::MP4V => ('m', 'p', '4', 'v'),
            Codec::H264 => ('h', '2', '6', '4'),
        }
    }

    /// The fourcc value of the codec as a mathematical integer.
    pub open spec fn code(self) -> int {
        packed(self.tag().0, self.tag().1, self.tag().2, self.tag().3)
    }

    /// Return the fourcc value associated to the video codec.
    pub fn fourcc(&self) -> (code: i32)
        ensures
            code == self.code(),
    {
        match *self {
            Codec::MJPG => pack('M', 'J', 'P', 'G'),
            Codec::XVID => pack('X', 'V', 'I', 'D'),
            Codec::MP4V => pack('m', 'p', '4', 'v'),
            Codec::H264 => pack('h', '2', '6', '4'),
        }
    }
}

} // verus!
