//! The image container: dimensions, declared colorspace and sample
//! encoding, and one channel buffer per band.
use vstd::prelude::*;

use crate::channel::{filled_vec, ChannelBuffer};
use crate::colorspace::Colorspace;
use crate::sample::SampleEncoding;

verus! {

/// A raster image: positive dimensions, a colorspace, a sample encoding,
/// and an ordered sequence of channel buffers, one per band, each holding
/// `width * height` samples of the declared encoding.
pub struct Image {
    pub width: usize,
    pub height: usize,
    pub colorspace: Colorspace,
    pub encoding: SampleEncoding,
    pub channels: Vec<ChannelBuffer>,
}

impl Image {
    /// The number of bytes each channel buffer holds.
    pub open spec fn spec_channel_bytes(self) -> int {
        self.width * self.height * self.encoding.spec_byte_width()
    }

    /// Well-formedness: positive dimensions whose sample area fits in
    /// memory, one channel per band, and every channel of the declared
    /// encoding with exactly `width * height` samples.
    pub open spec fn wf(self) -> bool {
        &&& self.colorspace.wf()
        &&& 0 < self.width
        &&& 0 < self.height
        &&& self.spec_channel_bytes() <= usize::MAX
        &&& self.channels@.len() == self.colorspace.spec_band_count()
        &&& forall|i: int|
            0 <= i < self.channels@.len() ==> ((#[trigger] self.channels@[i]).encoding
                == self.encoding && self.channels@[i].data@.len() == self.spec_channel_bytes())
    }

    /// The image's width and height.
    pub fn dimensions(&self) -> (r: (usize, usize))
        ensures
            r.0 == self.width,
            r.1 == self.height,
    {
        (self.width, self.height)
    }

    /// The image's declared colorspace.
    pub fn colorspace(&self) -> (r: Colorspace)
        ensures
            r == self.colorspace,
    {
        self.colorspace
    }

    /// The image's declared sample encoding.
    pub fn sample_encoding(&self) -> (r: SampleEncoding)
        ensures
            r == self.encoding,
    {
        self.encoding
    }

    /// The number of channel buffers the image owns.
    pub fn channel_count(&self) -> (r: usize)
        ensures
            r == self.channels@.len(),
    {
        self.channels.len()
    }

    /// Runtime well-formedness check, for callers outside verified code.
    pub fn is_well_formed(&self) -> (r: bool)
        ensures
            r == self.wf(),
    {
        let cs_ok = match self.colorspace {
            Colorspace::MultiBand(n) => n >= 1,
            _ => true,
        };
        if !cs_ok || self.width == 0 || self.height == 0 {
            return false;
        }
        let area = match self.width.checked_mul(self.height) {
            Some(a) => a,
            None => { return false },
        };
        let bytes = match area.checked_mul(self.encoding.byte_width()) {
            Some(b) => b,
            None => { return false },
        };
        if self.channels.len() != self.colorspace.band_count() {
            return false;
        }
        let mut i: usize = 0;
        while i < self.channels.len()
            invariant
                i <= self.channels@.len(),
                bytes == self.spec_channel_bytes(),
                forall|j: int|
                    0 <= j < i ==> ((#[trigger] self.channels@[j]).encoding == self.encoding
                        && self.channels@[j].data@.len() == self.spec_channel_bytes()),
            decreases self.channels@.len() - i,
        {
            let ch = &self.channels[i];
            if !(ch.encoding == self.encoding) || ch.data.len() != bytes {
                return false;
            }
            i += 1;
        }
        true
    }

    /// Assemble an image from parts, validating well-formedness; returns
    /// `None` exactly when the parts do not form a well-formed image.
    pub fn from_channels(
        channels: Vec<ChannelBuffer>,
        colorspace: Colorspace,
        encoding: SampleEncoding,
        width: usize,
        height: usize,
    ) -> (r: Option<Image>)
        ensures
            r is Some <==> (Image { width, height, colorspace, encoding, channels }).wf(),
            r is Some ==> r->Some_0 == (Image { width, height, colorspace, encoding, channels }),
    {
        let img = Image { width, height, colorspace, encoding, channels };
        if img.is_well_formed() {
            Some(img)
        } else {
            None
        }
    }

    /// A fresh 8-bit image of the given shape with every sample of every
    /// band set to `value`; `None` exactly when the shape is not a
    /// well-formed image shape.
    pub fn filled_u8(value: u8, colorspace: Colorspace, width: usize, height: usize) -> (r: Option<
        Image,
    >)
        ensures
            r is Some <==> (colorspace.wf() && 0 < width && 0 < height && width * height
                <= usize::MAX),
            r is Some ==> {
                let img = r->Some_0;
                &&& img.wf()
                &&& img.width == width
                &&& img.height == height
                &&& img.colorspace == colorspace
                &&& img.encoding == SampleEncoding::U8
                &&& forall|i: int|
                    0 <= i < img.channels@.len() ==> (#[trigger] img.channels@[i]).data@
                        == Seq::new((width * height) as nat, |j: int| value)
            },
    {
        let cs_ok = match colorspace {
            Colorspace::MultiBand(n) => n >= 1,
            _ => true,
        };
        if !cs_ok || width == 0 || height == 0 {
            return None;
        }
        let area = match width.checked_mul(height) {
            Some(a) => a,
            None => { return None },
        };
        let bands = colorspace.band_count();
        let mut channels: Vec<ChannelBuffer> = Vec::new();
        let mut b: usize = 0;
        while b < bands
            invariant
                b <= bands,
                area == width * height,
                channels@.len() == b,
                forall|i: int|
                    0 <= i < b ==> ((#[trigger] channels@[i]).encoding == SampleEncoding::U8
                        && channels@[i].data@ == Seq::new((width * height) as nat, |j: int| value)),
            decreases bands - b,
        {
            channels.push(ChannelBuffer::from_u8_samples(filled_vec(area, value)));
            b += 1;
        }
        Some(Image { width, height, colorspace, encoding: SampleEncoding::U8, channels })
    }
}

} // verus!
