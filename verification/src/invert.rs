//! Invert image pixels: every sample becomes its distance from the
//! full-scale maximum of its sample type, `max_value - sample`.
use vstd::prelude::*;

use crate::channel::{u16_view, ChannelBuffer};
use crate::colorspace::Colorspace;
use crate::dispatch::{check_colorspace_support, check_encoding_support};
use crate::errors::{OpError, OpName};
use crate::image::Image;
use crate::sample::{Sample, SampleEncoding};

verus! {

/// The sequence with every sample inverted.
pub open spec fn inverted_seq<T: Sample>(s: Seq<T>) -> Seq<T> {
    Seq::new(s.len(), |i: int| s[i].spec_inverted())
}

/// Invert every sample of a buffer in place.
pub fn invert<T: Sample>(in_image: &mut Vec<T>)
    ensures
        final(in_image)@ == inverted_seq(old(in_image)@),
{
    let mut i: usize = 0;
    while i < in_image.len()
        invariant
            i <= in_image@.len(),
            in_image@.len() == old(in_image)@.len(),
            forall|j: int| 0 <= j < i ==> in_image@[j] == old(in_image)@[j].spec_inverted(),
            forall|j: int| i <= j < in_image@.len() ==> in_image@[j] == old(in_image)@[j],
        decreases in_image@.len() - i,
    {
        let v = in_image[i];
        in_image[i] = v.inverted();
        i += 1;
    }
    proof {
        assert(in_image@ =~= inverted_seq(old(in_image)@));
    }
}

/// Invert is an involution: inverting a sample sequence twice returns the
/// original sequence exactly.
pub proof fn lemma_invert_involution<T: Sample>(s: Seq<T>)
    ensures
        inverted_seq(inverted_seq(s)) == s,
{
    assert forall|i: int| 0 <= i < s.len() implies inverted_seq(inverted_seq(s))[i] == s[i] by {
        s[i].lemma_inverted_involution();
    }
    assert(inverted_seq(inverted_seq(s)) =~= s);
}

/// Every sample of the sequence equals `v`.
pub open spec fn uniform_seq<T>(s: Seq<T>, v: T) -> bool {
    forall|i: int| 0 <= i < s.len() ==> s[i] == v
}

/// Inverting an all-zero sequence yields an all-maximum sequence, and vice
/// versa.
pub proof fn lemma_invert_full_scale<T: Sample>(s: Seq<T>)
    ensures
        uniform_seq(s, T::spec_zero()) ==> uniform_seq(inverted_seq(s), T::spec_max()),
        uniform_seq(s, T::spec_max()) ==> uniform_seq(inverted_seq(s), T::spec_zero()),
{
    T::lemma_inverted_full_scale();
}

/// Inverting a byte buffer inverts its 16-bit little-endian view: each
/// 16-bit sample of the result is 65535 minus the corresponding sample of
/// the source.
pub proof fn lemma_byte_invert_is_u16_invert(s: Seq<u8>)
    ensures
        u16_view(inverted_seq(s)) == inverted_seq(u16_view(s)),
{
    assert forall|i: int| 0 <= i < u16_view(s).len() implies u16_view(inverted_seq(s))[i]
        == inverted_seq(u16_view(s))[i] by {
        assert(inverted_seq(s)[2 * i] == (255 - s[2 * i]) as u8);
        assert(inverted_seq(s)[2 * i + 1] == (255 - s[2 * i + 1]) as u8);
    }
    assert(u16_view(inverted_seq(s)) =~= inverted_seq(u16_view(s)));
}

/// The colorspaces the invert operation declares support for: the
/// recognized real-image layouts. Arbitrary multi-band images are outside
/// the declared set and are rejected by validation.
pub open spec fn invert_supports_colorspace(c: Colorspace) -> bool {
    c == Colorspace::Luma || c == Colorspace::LumaA || c == Colorspace::RGB || c
        == Colorspace::RGBA
}

/// The sample encodings the invert operation declares support for.
pub open spec fn invert_supports_encoding(e: SampleEncoding) -> bool {
    e == SampleEncoding::U8 || e == SampleEncoding::U16 || e == SampleEncoding::F32
}

/// How a successful invert rewrites an image: shape and declarations are
/// untouched; every channel's bytes are inverted in place, except an alpha
/// band, which is left as it was.
pub open spec fn inverted_image(pre: Image, post: Image) -> bool {
    &&& post.width == pre.width
    &&& post.height == pre.height
    &&& post.colorspace == pre.colorspace
    &&& post.encoding == pre.encoding
    &&& post.channels@.len() == pre.channels@.len()
    &&& forall|i: int|
        0 <= i < pre.channels@.len() ==> {
            let pc = #[trigger] pre.channels@[i];
            let qc = post.channels@[i];
            &&& qc.encoding == pc.encoding
            &&& if pre.colorspace.spec_has_alpha() && i == pre.channels@.len() - 1 {
                qc.data@ == pc.data@
            } else {
                qc.data@ == inverted_seq::<u8>(pc.data@)
            }
        }
}

/// A byte-for-byte copy of a vector.
fn copied_bytes(src: &Vec<u8>) -> (r: Vec<u8>)
    ensures
        r@ == src@,
{
    let mut r: Vec<u8> = Vec::new();
    let mut i: usize = 0;
    while i < src.len()
        invariant
            i <= src@.len(),
            r@ == src@.subrange(0, i as int),
        decreases src@.len() - i,
    {
        r.push(src[i]);
        proof {
            assert(r@ =~= src@.subrange(0, i + 1));
        }
        i += 1;
    }
    proof {
        assert(r@ =~= src@);
    }
    r
}

/// A channel with the same encoding and its bytes inverted.
fn inverted_channel(ch: &ChannelBuffer) -> (r: ChannelBuffer)
    ensures
        r.encoding == ch.encoding,
        r.data@ == inverted_seq::<u8>(ch.data@),
{
    let mut data = copied_bytes(&ch.data);
    invert(&mut data);
    ChannelBuffer { data, encoding: ch.encoding }
}

/// A byte-for-byte copy of a channel.
fn copied_channel(ch: &ChannelBuffer) -> (r: ChannelBuffer)
    ensures
        r.encoding == ch.encoding,
        r.data@ == ch.data@,
{
    ChannelBuffer { data: copied_bytes(&ch.data), encoding: ch.encoding }
}

/// The invert operation: replaces each sample with
/// `max_value_of_type - sample`. The operation value is stateless; it is a
/// capability declaration plus an execution entry point.
#[derive(Default)]
pub struct Invert {
}

impl Invert {
    /// Create a new invert operation.
    #[must_use]
    pub fn new() -> (r: Invert) {
        Invert {}
    }

    /// The operation's name.
    pub fn name(&self) -> (r: OpName)
        ensures
            r == OpName::Invert,
    {
        OpName::Invert
    }

    /// The colorspaces this operation declares support for.
    pub fn supported_colorspaces(&self) -> (r: Vec<Colorspace>)
        ensures
            r@ == seq![
                Colorspace::RGB,
                Colorspace::RGBA,
                Colorspace::LumaA,
                Colorspace::Luma,
            ],
            forall|c: Colorspace| r@.contains(c) <==> invert_supports_colorspace(c),
    {
        let mut r: Vec<Colorspace> = Vec::new();
        r.push(Colorspace::RGB);
        r.push(Colorspace::RGBA);
        r.push(Colorspace::LumaA);
        r.push(Colorspace::Luma);
        proof {
            assert(r@ =~= seq![
                Colorspace::RGB,
                Colorspace::RGBA,
                Colorspace::LumaA,
                Colorspace::Luma,
            ]);
            assert forall|c: Colorspace| r@.contains(c) <==> invert_supports_colorspace(c) by {
                if invert_supports_colorspace(c) {
                    if c == Colorspace::RGB {
                        assert(r@[0] == c);
                    } else if c == Colorspace::RGBA {
                        assert(r@[1] == c);
                    } else if c == Colorspace::LumaA {
                        assert(r@[2] == c);
                    } else {
                        assert(r@[3] == c);
                    }
                }
                if r@.contains(c) {
                    let j = choose|j: int| 0 <= j < r@.len() && r@[j] == c;
                    assert(j == 0 || j == 1 || j == 2 || j == 3);
                }
            }
        }
        r
    }

    /// The sample encodings this operation declares support for.
    pub fn supported_sample_encodings(&self) -> (r: Vec<SampleEncoding>)
        ensures
            r@ == seq![SampleEncoding::U8, SampleEncoding::U16, SampleEncoding::F32],
            forall|e: SampleEncoding| r@.contains(e) <==> invert_supports_encoding(e),
    {
        let mut r: Vec<SampleEncoding> = Vec::new();
        r.push(SampleEncoding::U8);
        r.push(SampleEncoding::U16);
        r.push(SampleEncoding::F32);
        proof {
            assert(r@ =~= seq![SampleEncoding::U8, SampleEncoding::U16, SampleEncoding::F32]);
            assert forall|e: SampleEncoding| r@.contains(e) <==> invert_supports_encoding(e) by {
                if invert_supports_encoding(e) {
                    if e == SampleEncoding::U8 {
                        assert(r@[0] == e);
                    } else if e == SampleEncoding::U16 {
                        assert(r@[1] == e);
                    } else {
                        assert(r@[2] == e);
                    }
                }
                if r@.contains(e) {
                    let j = choose|j: int| 0 <= j < r@.len() && r@[j] == e;
                    assert(j == 0 || j == 1 || j == 2);
                }
            }
        }
        r
    }

    /// Execute invert on an image.
    ///
    /// Validates the declared colorspace and sample encoding first and
    /// fails fast, leaving the image untouched, if either is outside the
    /// declared support set. On success every non-alpha channel is
    /// inverted in place; an alpha band keeps its bytes.
    ///
    /// The declared support set includes `F32`, but the 32-bit float
    /// kernel performs floating-point arithmetic, which the verified core
    /// does not carry; for an `F32` image the missing kernel instantiation
    /// is reported as `NotImplemented` and a host may supply that one
    /// kernel outside the core.
    pub fn execute(&self, image: &mut Image) -> (r: Result<(), OpError>)
        requires
            old(image).wf(),
        ensures
            final(image).wf(),
            !invert_supports_colorspace(old(image).colorspace) ==> r == Err::<(), OpError>(
                OpError::UnsupportedColorspace(OpName::Invert, old(image).colorspace),
            ) && *final(image) == *old(image),
            invert_supports_colorspace(old(image).colorspace) && !invert_supports_encoding(
                old(image).encoding,
            ) ==> r == Err::<(), OpError>(
                OpError::UnsupportedSampleEncoding(OpName::Invert, old(image).encoding),
            ) && *final(image) == *old(image),
            invert_supports_colorspace(old(image).colorspace) && old(image).encoding
                == SampleEncoding::F32 ==> r == Err::<(), OpError>(
                OpError::NotImplemented(OpName::Invert, SampleEncoding::F32),
            ) && *final(image) == *old(image),
            invert_supports_colorspace(old(image).colorspace) && (old(image).encoding
                == SampleEncoding::U8 || old(image).encoding == SampleEncoding::U16) ==> r == Ok::<
                (),
                OpError,
            >(()) && inverted_image(*old(image), *final(image)),
            invert_supports_colorspace(old(image).colorspace) && old(image).encoding
                == SampleEncoding::U16 ==> forall|i: int|
                0 <= i < old(image).channels@.len() && !(old(image).colorspace.spec_has_alpha() && i
                    == old(image).channels@.len() - 1) ==> u16_view(
                    (#[trigger] final(image).channels@[i]).data@,
                ) == inverted_seq::<u16>(u16_view(old(image).channels@[i].data@)),
    {
        let sup_cs = self.supported_colorspaces();
        if let Err(e) = check_colorspace_support(OpName::Invert, &sup_cs, image) {
            return Err(e);
        }
        let sup_enc = self.supported_sample_encodings();
        if let Err(e) = check_encoding_support(OpName::Invert, &sup_enc, image) {
            return Err(e);
        }
        if matches!(image.sample_encoding(), SampleEncoding::F32) {
            return Err(OpError::NotImplemented(OpName::Invert, SampleEncoding::F32));
        }
        let has_alpha = image.colorspace().has_alpha();
        let n = image.channel_count();
        let mut out: Vec<ChannelBuffer> = Vec::new();
        let mut i: usize = 0;
        while i < n
            invariant
                i <= n,
                n == image.channels@.len(),
                *image == *old(image),
                has_alpha == old(image).colorspace.spec_has_alpha(),
                out@.len() == i,
                forall|j: int|
                    0 <= j < i ==> {
                        let pc = #[trigger] image.channels@[j];
                        let qc = out@[j];
                        &&& qc.encoding == pc.encoding
                        &&& if has_alpha && j == n - 1 {
                            qc.data@ == pc.data@
                        } else {
                            qc.data@ == inverted_seq::<u8>(pc.data@)
                        }
                    },
            decreases n - i,
        {
            let ch = &image.channels[i];
            let nc = if has_alpha && i + 1 == n {
                copied_channel(ch)
            } else {
                inverted_channel(ch)
            };
            out.push(nc);
            i += 1;
        }
        image.channels = out;
        proof {
            assert forall|i2: int| 0 <= i2 < image.channels@.len() implies ((
            #[trigger] image.channels@[i2]).encoding == image.encoding
                && image.channels@[i2].data@.len() == image.spec_channel_bytes()) by {
                assert(old(image).channels@[i2].encoding == old(image).encoding);
            }
            if old(image).encoding == SampleEncoding::U16 {
                assert forall|i2: int|
                    0 <= i2 < old(image).channels@.len() && !(
                    old(image).colorspace.spec_has_alpha() && i2 == old(image).channels@.len()
                        - 1) implies u16_view((#[trigger] image.channels@[i2]).data@)
                    == inverted_seq::<u16>(u16_view(old(image).channels@[i2].data@)) by {
                    lemma_byte_invert_is_u16_invert(old(image).channels@[i2].data@);
                }
            }
        }
        Ok(())
    }
}

} // verus!
