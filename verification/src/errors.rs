//! Structured errors surfaced by the pixel operations.
use vstd::prelude::*;

verus! {

/// Identifies the operation that reported an error, so that a caller can
/// branch on the failure without string parsing.
#[derive(Clone, Copy, Debug, PartialEq, Eq, Structural)]
pub enum OpName {
    Invert,
    Transpose,
}

/// Why a channel buffer could not be read as a typed sample sequence.
#[derive(Clone, Copy, Debug, PartialEq, Eq, Structural)]
pub enum ReinterpretError {
    /// The buffer's declared encoding does not match the requested sample type.
    EncodingMismatch,
    /// The buffer's byte length is not a multiple of the sample byte width.
    LengthMismatch,
}

/// An error returned by an operation's execution entry point.
///
/// Validation errors (`UnsupportedColorspace`, `UnsupportedSampleEncoding`)
/// are raised before any buffer is touched and leave the image unmodified.
/// `NotImplemented` reports an encoding that an operation declares supported
/// but for which no kernel instantiation exists.
#[derive(Clone, Copy, Debug, PartialEq, Eq, Structural)]
pub enum OpError {
    UnsupportedColorspace(OpName, crate::colorspace::Colorspace),
    UnsupportedSampleEncoding(OpName, crate::sample::SampleEncoding),
    NotImplemented(OpName, crate::sample::SampleEncoding),
    Reinterpret(ReinterpretError),
}

} // verus!
