//! Stream directions and sample wire formats, with their native codes and
//! per-sample byte widths.

use vstd::prelude::*;

verus! {

/// The direction of information which will stream from the server.
#[derive(Clone, Copy, PartialEq, Eq, Structural, Debug)]
pub enum StreamDirection {
    /// Playback stream.
    Playback,
    /// Record stream.
    Record,
}

impl StreamDirection {
    /// The native code that stands for this direction in an open call.
    pub open spec fn spec_code(self) -> u32 {
        match self {
            StreamDirection::Playback => 1,
            StreamDirection::Record => 2,
        }
    }

    /// Returns the native direction code.
    pub fn code(&self) -> (c: u32)
        ensures
            c == self.spec_code(),
    {
        match self {
            StreamDirection::Playback => 1,
            StreamDirection::Record => 2,
        }
    }
}

/// Wire formats of individual audio samples.
#[derive(Clone, Copy, PartialEq, Eq, Structural, Debug)]
pub enum SampleFormat {
    /// Unsigned 8 bit PCM.
    U8,
    /// 8 bit a-Law.
    ALAW,
    /// 8 bit mu-Law.
    ULAW,
    /// Signed 16 bit PCM, little endian.
    S16LE,
    /// 32 bit IEEE floating point, little endian, range -1.0 to 1.0.
    FLOAT32LE,
    /// Signed 32 bit PCM, little endian.
    S32LE,
}

impl SampleFormat {
    /// The native code that stands for this wire format in a sample
    /// specification.
    pub open spec fn spec_code(self) -> u32 {
        match self {
            SampleFormat::U8 => 0,
            SampleFormat::ALAW => 1,
            SampleFormat::ULAW => 2,
            SampleFormat::S16LE => 3,
            SampleFormat::FLOAT32LE => 5,
            SampleFormat::S32LE => 7,
        }
    }

    /// Returns the native wire-format code.
    pub fn code(&self) -> (c: u32)
        ensures
            c == self.spec_code(),
    {
        match self {
            SampleFormat::U8 => 0,
            SampleFormat::ALAW => 1,
            SampleFormat::ULAW => 2,
            SampleFormat::S16LE => 3,
            SampleFormat::FLOAT32LE => 5,
            SampleFormat::S32LE => 7,
        }
    }

    /// The in-memory byte width of one sample in this wire format.
    pub open spec fn spec_width(self) -> usize {
        match self {
            SampleFormat::U8 => 1,
            SampleFormat::ALAW => 1,
            SampleFormat::ULAW => 1,
            SampleFormat::S16LE => 2,
            SampleFormat::FLOAT32LE => 4,
            SampleFormat::S32LE => 4,
        }
    }

    /// Returns the byte width of one sample: the width is load-bearing, since
    /// every native buffer length is a sample count times this value.
    pub fn bytes_per_sample(&self) -> (w: usize)
        ensures
            w == self.spec_width(),
    {
        match self {
            SampleFormat::U8 => 1,
            SampleFormat::ALAW => 1,
            SampleFormat::ULAW => 1,
            SampleFormat::S16LE => 2,
            SampleFormat::FLOAT32LE => 4,
            SampleFormat::S32LE => 4,
        }
    }
}

/// Law: the byte width declared for every sample format equals the actual
/// size of one sample in that encoding: one byte for the three 8-bit
/// encodings, two for 16-bit PCM, four for the two 32-bit encodings.
pub proof fn lemma_sample_width_exact(f: SampleFormat)
    ensures
        SampleFormat::U8.spec_width() == 1,
        SampleFormat::ALAW.spec_width() == 1,
        SampleFormat::ULAW.spec_width() == 1,
        SampleFormat::S16LE.spec_width() == 2,
        SampleFormat::S32LE.spec_width() == 4,
        SampleFormat::FLOAT32LE.spec_width() == 4,
        1 <= f.spec_width() <= 4,
{
}

} // verus!
