//! Sample encodings and the arithmetic contract integer kernels rely on.
use vstd::prelude::*;

verus! {

/// The numeric representation used to store each sample of a channel.
///
/// `U8`, `U16` and `F32` are the encodings the pixel operations support;
/// `U32` is representable in a channel buffer, but no operation declares a
/// kernel for it.
#[derive(Clone, Copy, Debug, PartialEq, Eq, Structural)]
pub enum SampleEncoding {
    /// 8-bit unsigned integer samples, full scale 255.
    U8,
    /// 16-bit unsigned integer samples (little endian), full scale 65535.
    U16,
    /// 32-bit IEEE 754 samples (little endian), full scale 1.0. The
    /// verified core stores and moves them as raw 4-byte groups; their
    /// floating-point arithmetic lives outside it.
    F32,
    /// 32-bit unsigned integer samples (little endian).
    U32,
}

impl SampleEncoding {
    /// Number of bytes one sample of this encoding occupies.
    pub open spec fn spec_byte_width(self) -> int {
        match self {
            SampleEncoding::U8 => 1,
            SampleEncoding::U16 => 2,
            SampleEncoding::F32 => 4,
            SampleEncoding::U32 => 4,
        }
    }

    /// Number of bytes one sample of this encoding occupies.
    pub fn byte_width(self) -> (r: usize)
        ensures
            r == self.spec_byte_width(),
    {
        match self {
            SampleEncoding::U8 => 1,
            SampleEncoding::U16 => 2,
            SampleEncoding::F32 => 4,
            SampleEncoding::U32 => 4,
        }
    }
}

/// The arithmetic contract a numeric sample type offers the invert kernel:
/// a zero, a full-scale maximum, and the inversion `max - sample`, together
/// with the laws the kernel's callers rely on.
pub trait Sample: Copy {
    /// The smallest legal sample value.
    spec fn spec_zero() -> Self;

    /// The full-scale maximum value of the type.
    spec fn spec_max() -> Self;

    /// The inverted sample, `spec_max() - self`.
    spec fn spec_inverted(self) -> Self;

    /// The full-scale maximum value of the type.
    fn max_val() -> (r: Self)
        ensures
            r == Self::spec_max(),
    ;

    /// Replace a sample with its distance from the full-scale maximum.
    fn inverted(self) -> (r: Self)
        ensures
            r == self.spec_inverted(),
    ;

    /// Inversion is an involution.
    proof fn lemma_inverted_involution(self)
        ensures
            self.spec_inverted().spec_inverted() == self,
    ;

    /// Inversion exchanges the zero and full-scale values.
    proof fn lemma_inverted_full_scale()
        ensures
            Self::spec_zero().spec_inverted() == Self::spec_max(),
            Self::spec_max().spec_inverted() == Self::spec_zero(),
    ;
}

impl Sample for u8 {
    open spec fn spec_zero() -> u8 {
        0u8
    }

    open spec fn spec_max() -> u8 {
        255u8
    }

    open spec fn spec_inverted(self) -> u8 {
        (255 - self) as u8
    }

    fn max_val() -> (r: u8)
        ensures
            r == Self::spec_max(),
    {
        255
    }

    fn inverted(self) -> (r: u8)
        ensures
            r == self.spec_inverted(),
    {
        255 - self
    }

    proof fn lemma_inverted_involution(self) {
    }

    proof fn lemma_inverted_full_scale() {
    }
}

impl Sample for u16 {
    open spec fn spec_zero() -> u16 {
        0u16
    }

    open spec fn spec_max() -> u16 {
        65535u16
    }

    open spec fn spec_inverted(self) -> u16 {
        (65535 - self) as u16
    }

    fn max_val() -> (r: u16)
        ensures
            r == Self::spec_max(),
    {
        65535
    }

    fn inverted(self) -> (r: u16)
        ensures
            r == self.spec_inverted(),
    {
        65535 - self
    }

    proof fn lemma_inverted_involution(self) {
    }

    proof fn lemma_inverted_full_scale() {
    }
}

} // verus!
