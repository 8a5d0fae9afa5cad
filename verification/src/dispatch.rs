//! The validation layer every operation runs before touching a buffer:
//! membership checks of the image's declared colorspace and sample encoding
//! against the operation's declared support sets.
use vstd::prelude::*;

use crate::colorspace::Colorspace;
use crate::errors::{OpError, OpName};
use crate::image::Image;
use crate::sample::SampleEncoding;

verus! {

/// Whether `cs` is one of the listed colorspaces.
pub fn colorspace_listed(supported: &Vec<Colorspace>, cs: Colorspace) -> (r: bool)
    ensures
        r == supported@.contains(cs),
{
    let mut i: usize = 0;
    while i < supported.len()
        invariant
            i <= supported@.len(),
            forall|j: int| 0 <= j < i ==> supported@[j] != cs,
        decreases supported@.len() - i,
    {
        if supported[i] == cs {
            proof {
                assert(supported@[i as int] == cs);
            }
            return true;
        }
        i += 1;
    }
    false
}

/// Whether `e` is one of the listed sample encodings.
pub fn encoding_listed(supported: &Vec<SampleEncoding>, e: SampleEncoding) -> (r: bool)
    ensures
        r == supported@.contains(e),
{
    let mut i: usize = 0;
    while i < supported.len()
        invariant
            i <= supported@.len(),
            forall|j: int| 0 <= j < i ==> supported@[j] != e,
        decreases supported@.len() - i,
    {
        if supported[i] == e {
            proof {
                assert(supported@[i as int] == e);
            }
            return true;
        }
        i += 1;
    }
    false
}

/// Fail fast with `UnsupportedColorspace` when the image's declared
/// colorspace is outside the operation's declared support set. Takes the
/// image by shared reference: a validation failure cannot touch a buffer.
pub fn check_colorspace_support(op: OpName, supported: &Vec<Colorspace>, image: &Image) -> (r:
    Result<(), OpError>)
    ensures
        supported@.contains(image.colorspace) ==> r == Ok::<(), OpError>(()),
        !supported@.contains(image.colorspace) ==> r == Err::<(), OpError>(
            OpError::UnsupportedColorspace(op, image.colorspace),
        ),
{
    let cs = image.colorspace();
    if colorspace_listed(supported, cs) {
        Ok(())
    } else {
        Err(OpError::UnsupportedColorspace(op, cs))
    }
}

/// Fail fast with `UnsupportedSampleEncoding` when the image's declared
/// sample encoding is outside the operation's declared support set.
pub fn check_encoding_support(op: OpName, supported: &Vec<SampleEncoding>, image: &Image) -> (r:
    Result<(), OpError>)
    ensures
        supported@.contains(image.encoding) ==> r == Ok::<(), OpError>(()),
        !supported@.contains(image.encoding) ==> r == Err::<(), OpError>(
            OpError::UnsupportedSampleEncoding(op, image.encoding),
        ),
{
    let e = image.sample_encoding();
    if encoding_listed(supported, e) {
        Ok(())
    } else {
        Err(OpError::UnsupportedSampleEncoding(op, e))
    }
}

} // verus!
