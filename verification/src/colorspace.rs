//! Channel layouts an image can declare.
use vstd::prelude::*;

verus! {

/// The semantic grouping and count of the channels an image carries.
///
/// The four named layouts are the recognized real-image layouts; `MultiBand`
/// carries an arbitrary positive band count for n-channel images with no
/// alpha band.
#[derive(Clone, Copy, Debug, PartialEq, Eq, Structural)]
pub enum Colorspace {
    /// One grayscale band.
    Luma,
    /// A grayscale band plus an alpha band.
    LumaA,
    /// Red, green and blue bands.
    RGB,
    /// Red, green, blue and alpha bands.
    RGBA,
    /// An arbitrary number of bands, none of them alpha.
    MultiBand(u32),
}

impl Colorspace {
    /// A `MultiBand` colorspace must carry at least one band.
    pub open spec fn wf(self) -> bool {
        match self {
            Colorspace::MultiBand(n) => n >= 1,
            _ => true,
        }
    }

    /// The number of channel buffers an image of this colorspace owns.
    pub open spec fn spec_band_count(self) -> int {
        match self {
            Colorspace::Luma => 1,
            Colorspace::LumaA => 2,
            Colorspace::RGB => 3,
            Colorspace::RGBA => 4,
            Colorspace::MultiBand(n) => n as int,
        }
    }

    /// The number of channel buffers an image of this colorspace owns.
    pub fn band_count(self) -> (r: usize)
        ensures
            r == self.spec_band_count(),
    {
        match self {
            Colorspace::Luma => 1,
            Colorspace::LumaA => 2,
            Colorspace::RGB => 3,
            Colorspace::RGBA => 4,
            Colorspace::MultiBand(n) => n as usize,
        }
    }

    /// Whether the last band of this layout is an alpha band.
    pub open spec fn spec_has_alpha(self) -> bool {
        self == Colorspace::LumaA || self == Colorspace::RGBA
    }

    /// Whether the last band of this layout is an alpha band.
    pub fn has_alpha(self) -> (r: bool)
        ensures
            r == self.spec_has_alpha(),
    {
        match self {
            Colorspace::LumaA => true,
            Colorspace::RGBA => true,
            _ => false,
        }
    }
}

} // verus!
