//! One image plane: a contiguous byte region plus its declared sample
//! encoding, with validated reinterpretation into typed sample sequences.
use vstd::prelude::*;

use crate::errors::ReinterpretError;
use crate::sample::SampleEncoding;

verus! {

/// The 16-bit samples a byte region holds, two little-endian bytes each.
pub open spec fn u16_view(s: Seq<u8>) -> Seq<u16> {
    Seq::new((s.len() / 2) as nat, |i: int| (s[2 * i] + 256 * s[2 * i + 1]) as u16)
}

/// The 32-bit sample groups a byte region holds, four little-endian bytes
/// each. For `F32` channels these are the raw IEEE 754 bit patterns.
pub open spec fn u32_view(s: Seq<u8>) -> Seq<u32> {
    Seq::new(
        (s.len() / 4) as nat,
        |i: int| (s[4 * i] + 256 * s[4 * i + 1] + 65536 * s[4 * i + 2] + 16777216 * s[4 * i
            + 3]) as u32,
    )
}

/// A vector of `n` copies of `value`.
pub fn filled_vec<T: Copy>(n: usize, value: T) -> (r: Vec<T>)
    ensures
        r@ == Seq::new(n as nat, |i: int| value),
{
    let mut r: Vec<T> = Vec::new();
    let mut i: usize = 0;
    while i < n
        invariant
            i <= n,
            r@ == Seq::new(i as nat, |j: int| value),
        decreases n - i,
    {
        r.push(value);
        proof {
            assert(r@ =~= Seq::new((i + 1) as nat, |j: int| value));
        }
        i += 1;
    }
    r
}

/// An owned, contiguous, byte-addressable region holding one image plane,
/// together with the sample encoding its bytes are declared to store.
pub struct ChannelBuffer {
    pub data: Vec<u8>,
    pub encoding: SampleEncoding,
}

impl ChannelBuffer {
    /// The byte length is always an exact multiple of the sample width.
    pub open spec fn wf(self) -> bool {
        self.data@.len() as int % self.encoding.spec_byte_width() == 0
    }

    /// The number of samples the buffer holds.
    pub open spec fn spec_elem_count(self) -> int {
        self.data@.len() as int / self.encoding.spec_byte_width()
    }

    /// The number of samples the buffer holds.
    pub fn elem_count(&self) -> (r: usize)
        ensures
            r == self.spec_elem_count(),
    {
        self.data.len() / self.encoding.byte_width()
    }

    /// A fresh zero-filled buffer of `elem_count` samples of `encoding`.
    pub fn new_with_encoding(elem_count: usize, encoding: SampleEncoding) -> (r: ChannelBuffer)
        requires
            elem_count * encoding.spec_byte_width() <= usize::MAX,
        ensures
            r.encoding == encoding,
            r.data@ == Seq::new((elem_count * encoding.spec_byte_width()) as nat, |i: int| 0u8),
            r.wf(),
            r.spec_elem_count() == elem_count,
    {
        let bw = encoding.byte_width();
        let n = elem_count * bw;
        let data = filled_vec(n, 0u8);
        proof {
            vstd::arithmetic::div_mod::lemma_fundamental_div_mod_converse(
                n as int,
                encoding.spec_byte_width(),
                elem_count as int,
                0,
            );
        }
        ChannelBuffer { data, encoding }
    }

    /// Wrap 8-bit samples as a channel buffer; each sample is one byte.
    pub fn from_u8_samples(samples: Vec<u8>) -> (r: ChannelBuffer)
        ensures
            r.encoding == SampleEncoding::U8,
            r.data@ == samples@,
            r.wf(),
    {
        ChannelBuffer { data: samples, encoding: SampleEncoding::U8 }
    }

    /// Encode 16-bit samples as a channel buffer, two little-endian bytes
    /// per sample.
    pub fn from_u16_samples(samples: &Vec<u16>) -> (r: ChannelBuffer)
        requires
            samples@.len() * 2 <= usize::MAX,
        ensures
            r.encoding == SampleEncoding::U16,
            r.data@.len() == 2 * samples@.len(),
            u16_view(r.data@) == samples@,
            r.wf(),
    {
        let mut data: Vec<u8> = Vec::new();
        let mut i: usize = 0;
        while i < samples.len()
            invariant
                i <= samples@.len(),
                data@.len() == 2 * i,
                forall|j: int|
                    0 <= j < i ==> data@[2 * j] == samples@[j] % 256 && data@[2 * j + 1]
                        == samples@[j] / 256,
            decreases samples@.len() - i,
        {
            let v = samples[i];
            data.push((v % 256) as u8);
            data.push((v / 256) as u8);
            i += 1;
        }
        proof {
            assert forall|j: int| 0 <= j < samples@.len() implies u16_view(data@)[j]
                == samples@[j] by {
                vstd::arithmetic::div_mod::lemma_fundamental_div_mod(samples@[j] as int, 256);
            }
            assert(u16_view(data@) =~= samples@);
        }
        ChannelBuffer { data, encoding: SampleEncoding::U16 }
    }

    /// Encode 32-bit sample groups as a channel buffer, four little-endian
    /// bytes per group; `encoding` says whether they are `U32` integers or
    /// `F32` bit patterns.
    pub fn from_u32_groups(samples: &Vec<u32>, encoding: SampleEncoding) -> (r: ChannelBuffer)
        requires
            samples@.len() * 4 <= usize::MAX,
            encoding.spec_byte_width() == 4,
        ensures
            r.encoding == encoding,
            r.data@.len() == 4 * samples@.len(),
            u32_view(r.data@) == samples@,
            r.wf(),
    {
        let mut data: Vec<u8> = Vec::new();
        let mut i: usize = 0;
        while i < samples.len()
            invariant
                i <= samples@.len(),
                data@.len() == 4 * i,
                forall|j: int|
                    0 <= j < i ==> data@[4 * j] == samples@[j] % 256 && data@[4 * j + 1]
                        == (samples@[j] / 256) % 256 && data@[4 * j + 2] == (samples@[j] / 65536)
                        % 256 && data@[4 * j + 3] == samples@[j] / 16777216,
            decreases samples@.len() - i,
        {
            let v = samples[i];
            data.push((v % 256) as u8);
            data.push(((v / 256) % 256) as u8);
            data.push(((v / 65536) % 256) as u8);
            data.push((v / 16777216) as u8);
            i += 1;
        }
        proof {
            assert forall|j: int| 0 <= j < samples@.len() implies u32_view(data@)[j]
                == samples@[j] by {
                lemma_u32_bytes_recompose(samples@[j]);
            }
            assert(u32_view(data@) =~= samples@);
        }
        ChannelBuffer { data, encoding }
    }

    /// Read the buffer as 16-bit samples. Fails if the declared encoding is
    /// not `U16`, or if the byte length is not an even number.
    pub fn to_u16_samples(&self) -> (r: Result<Vec<u16>, ReinterpretError>)
        ensures
            self.encoding != SampleEncoding::U16 ==> r == Err::<Vec<u16>, ReinterpretError>(
                ReinterpretError::EncodingMismatch,
            ),
            self.encoding == SampleEncoding::U16 && self.data@.len() % 2 != 0 ==> r == Err::<
                Vec<u16>,
                ReinterpretError,
            >(ReinterpretError::LengthMismatch),
            self.encoding == SampleEncoding::U16 && self.data@.len() % 2 == 0 ==> r is Ok
                && r->Ok_0@ == u16_view(self.data@),
    {
        if !matches!(self.encoding, SampleEncoding::U16) {
            return Err(ReinterpretError::EncodingMismatch);
        }
        if self.data.len() % 2 != 0 {
            return Err(ReinterpretError::LengthMismatch);
        }
        let n = self.data.len() / 2;
        let mut out: Vec<u16> = Vec::new();
        let mut i: usize = 0;
        while i < n
            invariant
                i <= n,
                n == self.data@.len() / 2,
                self.data@.len() % 2 == 0,
                out@.len() == i,
                forall|j: int| 0 <= j < i ==> out@[j] == u16_view(self.data@)[j],
            decreases n - i,
        {
            let lo = self.data[2 * i];
            let hi = self.data[2 * i + 1];
            let v = (lo as u16) + (hi as u16) * 256;
            out.push(v);
            i += 1;
        }
        proof {
            assert(out@ =~= u16_view(self.data@));
        }
        Ok(out)
    }

    /// Read the buffer as 32-bit sample groups. Fails if the declared
    /// encoding is not the requested 4-byte `encoding`, or if the byte
    /// length is not a multiple of four.
    pub fn to_u32_groups(&self, encoding: SampleEncoding) -> (r: Result<Vec<u32>, ReinterpretError>)
        requires
            encoding.spec_byte_width() == 4,
        ensures
            self.encoding != encoding ==> r == Err::<Vec<u32>, ReinterpretError>(
                ReinterpretError::EncodingMismatch,
            ),
            self.encoding == encoding && self.data@.len() % 4 != 0 ==> r == Err::<
                Vec<u32>,
                ReinterpretError,
            >(ReinterpretError::LengthMismatch),
            self.encoding == encoding && self.data@.len() % 4 == 0 ==> r is Ok && r->Ok_0@
                == u32_view(self.data@),
    {
        if !(self.encoding == encoding) {
            return Err(ReinterpretError::EncodingMismatch);
        }
        if self.data.len() % 4 != 0 {
            return Err(ReinterpretError::LengthMismatch);
        }
        let n = self.data.len() / 4;
        let mut out: Vec<u32> = Vec::new();
        let mut i: usize = 0;
        while i < n
            invariant
                i <= n,
                n == self.data@.len() / 4,
                self.data@.len() % 4 == 0,
                out@.len() == i,
                forall|j: int| 0 <= j < i ==> out@[j] == u32_view(self.data@)[j],
            decreases n - i,
        {
            let b0 = self.data[4 * i];
            let b1 = self.data[4 * i + 1];
            let b2 = self.data[4 * i + 2];
            let b3 = self.data[4 * i + 3];
            let v = (b0 as u32) + (b1 as u32) * 256 + (b2 as u32) * 65536 + (b3 as u32) * 16777216;
            out.push(v);
            i += 1;
        }
        proof {
            assert(out@ =~= u32_view(self.data@));
        }
        Ok(out)
    }
}

/// The 16-bit view determines the bytes: two byte regions of the same even
/// length with equal 16-bit views are identical, byte for byte.
pub proof fn lemma_u16_view_determines_bytes(a: Seq<u8>, b: Seq<u8>)
    requires
        a.len() == b.len(),
        a.len() as int % 2 == 0,
        u16_view(a) == u16_view(b),
    ensures
        a == b,
{
    assert forall|j: int| 0 <= j < a.len() implies a[j] == b[j] by {
        let i = j / 2;
        vstd::arithmetic::div_mod::lemma_fundamental_div_mod(j, 2);
        vstd::arithmetic::div_mod::lemma_fundamental_div_mod(a.len() as int, 2);
        assert(0 <= i < a.len() as int / 2);
        let va = a[2 * i] + 256 * a[2 * i + 1];
        let vb = b[2 * i] + 256 * b[2 * i + 1];
        assert(u16_view(a)[i] == va as u16);
        assert(u16_view(b)[i] == vb as u16);
        assert(va as u16 == vb as u16);
        assert(va == vb);
        assert(a[2 * i] == b[2 * i] && a[2 * i + 1] == b[2 * i + 1]);
        assert(j == 2 * i || j == 2 * i + 1);
    }
    assert(a =~= b);
}

/// The 32-bit view determines the bytes: two byte regions of the same
/// length, a multiple of four, with equal 32-bit views are identical.
pub proof fn lemma_u32_view_determines_bytes(a: Seq<u8>, b: Seq<u8>)
    requires
        a.len() == b.len(),
        a.len() as int % 4 == 0,
        u32_view(a) == u32_view(b),
    ensures
        a == b,
{
    assert forall|j: int| 0 <= j < a.len() implies a[j] == b[j] by {
        let i = j / 4;
        vstd::arithmetic::div_mod::lemma_fundamental_div_mod(j, 4);
        vstd::arithmetic::div_mod::lemma_fundamental_div_mod(a.len() as int, 4);
        assert(0 <= i < a.len() as int / 4);
        let va = a[4 * i] + 256 * a[4 * i + 1] + 65536 * a[4 * i + 2] + 16777216 * a[4 * i + 3];
        let vb = b[4 * i] + 256 * b[4 * i + 1] + 65536 * b[4 * i + 2] + 16777216 * b[4 * i + 3];
        assert(u32_view(a)[i] == va as u32);
        assert(u32_view(b)[i] == vb as u32);
        assert(va as u32 == vb as u32);
        assert(va == vb);
        assert(a[4 * i] == b[4 * i] && a[4 * i + 1] == b[4 * i + 1] && a[4 * i + 2] == b[4 * i + 2]
            && a[4 * i + 3] == b[4 * i + 3]);
        assert(j == 4 * i || j == 4 * i + 1 || j == 4 * i + 2 || j == 4 * i + 3);
    }
    assert(a =~= b);
}

/// A 32-bit value is recovered from its four little-endian base-256 digits.
proof fn lemma_u32_bytes_recompose(v: u32)
    ensures
        v % 256 + 256 * ((v / 256) % 256) + 65536 * ((v / 65536) % 256) + 16777216 * (v / 16777216)
            == v,
{
    vstd::arithmetic::div_mod::lemma_fundamental_div_mod(v as int, 256);
    vstd::arithmetic::div_mod::lemma_fundamental_div_mod(v as int / 256, 256);
    vstd::arithmetic::div_mod::lemma_fundamental_div_mod(v as int / 65536, 256);
    assert(v as int / 256 / 256 == v as int / 65536) by {
        vstd::arithmetic::div_mod::lemma_div_denominator(v as int, 256, 256);
    }
    assert(v as int / 65536 / 256 == v as int / 16777216) by {
        vstd::arithmetic::div_mod::lemma_div_denominator(v as int, 65536, 256);
    }
}

} // verus!
