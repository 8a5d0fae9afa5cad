//! Transpose an image: mirror it along the top-left to bottom-right
//! diagonal by swapping the X and Y indices of every channel's row-major
//! sample grid, then swap the image's recorded width and height.
//!
//! Two realizations fill the destination buffer: a portable scalar path
//! that walks the grid in clipped square tiles for cache locality, and a
//! block-structured path that handles the aligned interior in fixed 8x8
//! blocks with scalar strips for the remainders, mirroring the shape of a
//! wide-register transpose. Both are proved against the same exact
//! contract, so their outputs are identical on every input.
use vstd::arithmetic::div_mod::{
    lemma_div_pos_is_pos, lemma_fundamental_div_mod, lemma_fundamental_div_mod_converse,
    lemma_mod_bound, lemma_small_mod,
};
use vstd::arithmetic::mul::{lemma_mul_inequality, lemma_mul_is_commutative};
use vstd::prelude::*;

use crate::channel::{filled_vec, u16_view, u32_view, ChannelBuffer};
use crate::dispatch::check_encoding_support;
use crate::errors::{OpError, OpName};
use crate::image::Image;
use crate::sample::SampleEncoding;

verus! {

/// The sample that lands at cell `i` of the transposed grid: cell `i` of
/// the result is row `i / h`, column `i % h` of a `h` by `w` grid, and it
/// receives the source sample at row `i % h`, column `i / h`.
pub open spec fn transposed_val<T>(src: Seq<T>, w: int, h: int, i: int) -> T {
    src[(i % h) * w + i / h]
}

/// The transpose of a row-major grid of `height` rows of `width` samples:
/// element `(x, y)` of the source, at index `y * width + x`, lands at index
/// `x * height + y` of the result.
pub open spec fn transposed_seq<T>(s: Seq<T>, w: int, h: int) -> Seq<T> {
    Seq::new((w * h) as nat, |i: int| transposed_val(s, w, h, i))
}

/// Row-major and column-major indices of a cell both lie in the grid.
proof fn lemma_index_bound(x: int, y: int, w: int, h: int)
    by (nonlinear_arith)
    requires
        0 <= x < w,
        0 <= y < h,
    ensures
        0 <= x * h + y < w * h,
        0 <= y * w + x < w * h,
{
}

/// Decompose a column-major index into its coordinates.
proof fn lemma_decompose(x: int, y: int, h: int)
    requires
        0 <= x,
        0 <= y < h,
    ensures
        (x * h + y) / h == x,
        (x * h + y) % h == y,
{
    lemma_fundamental_div_mod_converse(x * h + y, h, x, y);
}

/// A grid index's coordinates lie in the grid.
proof fn lemma_div_bound(i: int, w: int, h: int)
    requires
        0 <= i < w * h,
        0 < h,
    ensures
        0 <= i / h < w,
        0 <= i % h < h,
{
    lemma_mod_bound(i, h);
    lemma_div_pos_is_pos(i, h);
    lemma_fundamental_div_mod(i, h);
    if i / h >= w {
        lemma_mul_inequality(w, i / h, h);
        lemma_mul_is_commutative(w, h);
        lemma_mul_is_commutative(i / h, h);
        assert(false);
    }
}

/// Fill one rectangle of the destination, rows `ty..tend_y` and columns
/// `tx..tend_x` of the transposed grid, leaving every other cell as it was.
fn fill_tile<T: Copy>(
    in_matrix: &Vec<T>,
    out_matrix: &mut Vec<T>,
    width: usize,
    height: usize,
    tx: usize,
    tend_x: usize,
    ty: usize,
    tend_y: usize,
)
    requires
        in_matrix@.len() == width * height,
        old(out_matrix)@.len() == width * height,
        tx <= tend_x <= width,
        ty <= tend_y <= height,
    ensures
        final(out_matrix)@.len() == old(out_matrix)@.len(),
        forall|i: int|
            #![trigger transposed_val(in_matrix@, width as int, height as int, i)]
            0 <= i < old(out_matrix)@.len() && ty <= i % (height as int) < tend_y && tx <= i / (
            height as int) < tend_x ==> final(out_matrix)@[i] == transposed_val(
                in_matrix@,
                width as int,
                height as int,
                i,
            ),
        forall|i: int|
            #![trigger old(out_matrix)@[i]]
            0 <= i < old(out_matrix)@.len() && !(ty <= i % (height as int) < tend_y && tx <= i / (
            height as int) < tend_x) ==> final(out_matrix)@[i] == old(out_matrix)@[i],
{
    let ghost w = width as int;
    let ghost h = height as int;
    let n_el = in_matrix.len();
    proof {
        assert(n_el == width * height);
        lemma_mul_is_commutative(w, h);
    }
    let mut y: usize = ty;
    while y < tend_y
        invariant
            ty <= y <= tend_y,
            out_matrix@.len() == old(out_matrix)@.len(),
            forall|i: int|
                #![trigger transposed_val(in_matrix@, w, h, i)]
                0 <= i < out_matrix@.len() && ty <= i % h < y && tx <= i / h < tend_x
                    ==> out_matrix@[i] == transposed_val(in_matrix@, w, h, i),
            forall|i: int|
                #![trigger old(out_matrix)@[i]]
                0 <= i < out_matrix@.len() && !(ty <= i % h < tend_y && tx <= i / h < tend_x)
                    ==> out_matrix@[i] == old(out_matrix)@[i],
        decreases tend_y - y,
    {
        let mut x: usize = tx;
        while x < tend_x
            invariant
                tx <= x <= tend_x,
                ty <= y < tend_y,
                out_matrix@.len() == old(out_matrix)@.len(),
                forall|i: int|
                    #![trigger transposed_val(in_matrix@, w, h, i)]
                    0 <= i < out_matrix@.len() && ty <= i % h < y && tx <= i / h < tend_x
                        ==> out_matrix@[i] == transposed_val(in_matrix@, w, h, i),
                forall|i: int|
                    #![trigger transposed_val(in_matrix@, w, h, i)]
                    0 <= i < out_matrix@.len() && i % h == y && tx <= i / h < x ==> out_matrix@[i]
                        == transposed_val(in_matrix@, w, h, i),
                forall|i: int|
                    #![trigger old(out_matrix)@[i]]
                    0 <= i < out_matrix@.len() && !(ty <= i % h < tend_y && tx <= i / h < tend_x)
                        ==> out_matrix@[i] == old(out_matrix)@[i],
            decreases tend_x - x,
        {
            proof {
                lemma_index_bound(x as int, y as int, w, h);
                lemma_decompose(x as int, y as int, h);
            }
            let v = in_matrix[y * width + x];
            out_matrix[x * height + y] = v;
            proof {
                assert forall|i: int|
                    0 <= i < out_matrix@.len() && i % h == y && tx <= i / h < x
                        + 1 implies out_matrix@[i] == transposed_val(in_matrix@, w, h, i) by {
                    if i / h == x as int {
                        lemma_fundamental_div_mod(i, h);
                        lemma_mul_is_commutative(h, x as int);
                        assert(i == x as int * h + y);
                    }
                }
            }
            x += 1;
        }
        y += 1;
    }
}

/// Transpose a row-major `width` by `height` sample grid into a
/// destination of the same element count, walking the grid in clipped
/// square tiles so that source and destination accesses stay local.
pub fn transpose_generic<T: Copy>(
    in_matrix: &Vec<T>,
    out_matrix: &mut Vec<T>,
    width: usize,
    height: usize,
)
    requires
        in_matrix@.len() == width * height,
        old(out_matrix)@.len() == width * height,
    ensures
        final(out_matrix)@ == transposed_seq(in_matrix@, width as int, height as int),
{
    let ghost w = width as int;
    let ghost h = height as int;
    let mut ty: usize = 0;
    while ty < height
        invariant
            ty <= height,
            out_matrix@.len() == width * height,
            forall|i: int|
                #![trigger transposed_val(in_matrix@, w, h, i)]
                0 <= i < out_matrix@.len() && i % h < ty ==> out_matrix@[i] == transposed_val(
                    in_matrix@,
                    w,
                    h,
                    i,
                ),
        decreases height - ty,
    {
        let tend_y = if height - ty < 16 {
            height
        } else {
            ty + 16
        };
        let mut tx: usize = 0;
        while tx < width
            invariant
                tx <= width,
                ty < tend_y <= height,
                out_matrix@.len() == width * height,
                forall|i: int|
                    #![trigger transposed_val(in_matrix@, w, h, i)]
                    0 <= i < out_matrix@.len() && i % h < ty ==> out_matrix@[i] == transposed_val(
                        in_matrix@,
                        w,
                        h,
                        i,
                    ),
                forall|i: int|
                    #![trigger transposed_val(in_matrix@, w, h, i)]
                    0 <= i < out_matrix@.len() && ty <= i % h < tend_y && i / h < tx
                        ==> out_matrix@[i] == transposed_val(in_matrix@, w, h, i),
            decreases width - tx,
        {
            let tend_x = if width - tx < 16 {
                width
            } else {
                tx + 16
            };
            fill_tile(in_matrix, out_matrix, width, height, tx, tend_x, ty, tend_y);
            tx = tend_x;
        }
        proof {
            assert forall|i: int|
                0 <= i < out_matrix@.len() && i % h < tend_y implies out_matrix@[i]
                == transposed_val(in_matrix@, w, h, i) by {
                lemma_div_bound(i, w, h);
            }
        }
        ty = tend_y;
    }
    proof {
        if height > 0 {
            assert forall|i: int| 0 <= i < out_matrix@.len() implies out_matrix@[i]
                == transposed_val(in_matrix@, w, h, i) by {
                lemma_div_bound(i, w, h);
            }
        }
        assert(out_matrix@ =~= transposed_seq(in_matrix@, w, h));
    }
}

/// Transpose with the block-structured layout: the interior that aligned
/// 8x8 blocks cover is processed block by block, the bottom rows and right
/// columns that remain are swept as scalar strips.
fn transpose_blocked<T: Copy>(
    in_matrix: &Vec<T>,
    out_matrix: &mut Vec<T>,
    width: usize,
    height: usize,
)
    requires
        in_matrix@.len() == width * height,
        old(out_matrix)@.len() == width * height,
    ensures
        final(out_matrix)@ == transposed_seq(in_matrix@, width as int, height as int),
{
    let ghost w = width as int;
    let ghost h = height as int;
    let full_w = width - width % 8;
    let full_h = height - height % 8;
    proof {
        lemma_fundamental_div_mod(w, 8);
        lemma_fundamental_div_mod(h, 8);
        lemma_mod_bound(w, 8);
        lemma_mod_bound(h, 8);
    }
    if width >= 8 && height >= 8 {
        let mut ty: usize = 0;
        while ty <= height - 8
            invariant
                width >= 8,
                height >= 8,
                ty <= height,
                ty % 8 == 0,
                out_matrix@.len() == width * height,
                forall|i: int|
                    #![trigger transposed_val(in_matrix@, w, h, i)]
                    0 <= i < out_matrix@.len() && i % h < ty && i / h < full_w ==> out_matrix@[i]
                        == transposed_val(in_matrix@, w, h, i),
            decreases height - ty,
        {
            let mut tx: usize = 0;
            while tx <= width - 8
                invariant
                    tx <= width,
                    tx % 8 == 0,
                    ty + 8 <= height,
                    out_matrix@.len() == width * height,
                    forall|i: int|
                        #![trigger transposed_val(in_matrix@, w, h, i)]
                        0 <= i < out_matrix@.len() && i % h < ty && i / h < full_w
                            ==> out_matrix@[i] == transposed_val(in_matrix@, w, h, i),
                    forall|i: int|
                        #![trigger transposed_val(in_matrix@, w, h, i)]
                        0 <= i < out_matrix@.len() && ty <= i % h < ty + 8 && i / h < tx
                            ==> out_matrix@[i] == transposed_val(in_matrix@, w, h, i),
                decreases width - tx,
            {
                fill_tile(in_matrix, out_matrix, width, height, tx, tx + 8, ty, ty + 8);
                proof {
                    lemma_fundamental_div_mod_converse(tx as int + 8, 8, tx as int / 8 + 1, 0);
                }
                tx += 8;
            }
            proof {
                // the last full-block column reached is exactly `full_w`
                lemma_fundamental_div_mod(tx as int, 8);
                assert(tx == full_w);
                lemma_fundamental_div_mod_converse(ty as int + 8, 8, ty as int / 8 + 1, 0);
            }
            ty += 8;
        }
        proof {
            lemma_fundamental_div_mod(ty as int, 8);
            assert(ty == full_h);
        }
    } else {
        proof {
            if width < 8 {
                lemma_small_mod(width as nat, 8);
                assert(full_w == 0);
            } else {
                lemma_small_mod(height as nat, 8);
                assert(full_h == 0);
            }
        }
    }
    // here the aligned interior, rows below `full_h` and transposed
    // columns below `full_w`, is in place
    assert(forall|i: int|
        #![trigger transposed_val(in_matrix@, w, h, i)]
        0 <= i < out_matrix@.len() && i % h < full_h && i / h < full_w ==> out_matrix@[i]
            == transposed_val(in_matrix@, w, h, i));
    // bottom strip: the rows past the last aligned block row, full width
    fill_tile(in_matrix, out_matrix, width, height, 0, width, full_h, height);
    // right strip: the columns past the last aligned block column
    fill_tile(in_matrix, out_matrix, width, height, full_w, width, 0, full_h);
    proof {
        if height > 0 {
            assert forall|i: int| 0 <= i < out_matrix@.len() implies out_matrix@[i]
                == transposed_val(in_matrix@, w, h, i) by {
                lemma_div_bound(i, w, h);
            }
        }
        assert(out_matrix@ =~= transposed_seq(in_matrix@, w, h));
    }
}

/// Block-structured transpose of 8-bit samples; output identical to
/// `transpose_generic` on every input.
pub fn transpose_u8(in_matrix: &Vec<u8>, out_matrix: &mut Vec<u8>, width: usize, height: usize)
    requires
        in_matrix@.len() == width * height,
        old(out_matrix)@.len() == width * height,
    ensures
        final(out_matrix)@ == transposed_seq(in_matrix@, width as int, height as int),
{
    transpose_blocked(in_matrix, out_matrix, width, height);
}

/// Block-structured transpose of 16-bit samples; output identical to
/// `transpose_generic` on every input.
pub fn transpose_u16(in_matrix: &Vec<u16>, out_matrix: &mut Vec<u16>, width: usize, height: usize)
    requires
        in_matrix@.len() == width * height,
        old(out_matrix)@.len() == width * height,
    ensures
        final(out_matrix)@ == transposed_seq(in_matrix@, width as int, height as int),
{
    transpose_blocked(in_matrix, out_matrix, width, height);
}

/// Transpose is its own inverse up to dimension swap: transposing a
/// `width` by `height` grid and then transposing the result as a `height`
/// by `width` grid returns the original buffer exactly.
pub proof fn lemma_transpose_involution<T>(s: Seq<T>, w: int, h: int)
    requires
        s.len() == w * h,
        0 <= w,
        0 <= h,
    ensures
        transposed_seq(transposed_seq(s, w, h), h, w) == s,
{
    let t1 = transposed_seq(s, w, h);
    let t2 = transposed_seq(t1, h, w);
    lemma_mul_is_commutative(h, w);
    assert forall|i: int| 0 <= i < s.len() implies t2[i] == s[i] by {
        assert(w * h > 0);
        assert(w > 0 && h > 0) by (nonlinear_arith)
            requires
                0 <= w,
                0 <= h,
                w * h > 0,
        ;
        let q = i / w;
        let r = i % w;
        lemma_div_bound(i, h, w);
        lemma_index_bound(r, q, w, h);
        lemma_decompose(r, q, h);
        lemma_fundamental_div_mod(i, w);
        lemma_mul_is_commutative(w, q);
    }
    assert(t2 =~= s);
}

/// The scalar and the block-structured realizations agree: each ensures
/// its output equals `transposed_seq` of the input, so for one input any
/// two outputs are identical, element for element.
pub proof fn lemma_transpose_paths_agree<T>(s: Seq<T>, w: int, h: int, a: Seq<T>, b: Seq<T>)
    requires
        a == transposed_seq(s, w, h),
        b == transposed_seq(s, w, h),
    ensures
        a == b,
{
}

/// Image-level involution: transposing a well-formed image twice restores
/// its dimensions, declarations, and every channel's bytes.
pub proof fn lemma_transpose_image_involution(a: Image, b: Image, c: Image)
    requires
        a.wf(),
        transposed_image(a, b),
        transposed_image(b, c),
    ensures
        c.width == a.width,
        c.height == a.height,
        c.colorspace == a.colorspace,
        c.encoding == a.encoding,
        c.channels@.len() == a.channels@.len(),
        forall|i: int|
            0 <= i < a.channels@.len() ==> (#[trigger] c.channels@[i]).data@
                == a.channels@[i].data@,
{
    assert forall|i: int| 0 <= i < a.channels@.len() implies (#[trigger] c.channels@[i]).data@
        == a.channels@[i].data@ by {
        let w = a.width as int;
        let h = a.height as int;
        let pa = a.channels@[i].data@;
        let pcd = c.channels@[i].data@;
        assert(a.channels@[i].encoding == a.encoding && pa.len() == a.spec_channel_bytes());
        let area = w * h;
        match a.encoding {
            SampleEncoding::U8 => {
                lemma_transpose_involution(pa, w, h);
            },
            SampleEncoding::U16 => {
                lemma_fundamental_div_mod_converse(area * 2, 2, area, 0);
                lemma_transpose_involution(u16_view(pa), w, h);
                crate::channel::lemma_u16_view_determines_bytes(pcd, pa);
            },
            _ => {
                lemma_fundamental_div_mod_converse(area * 4, 4, area, 0);
                lemma_transpose_involution(u32_view(pa), w, h);
                crate::channel::lemma_u32_view_determines_bytes(pcd, pa);
            },
        }
    }
}

/// At the image level the realizations agree byte for byte: however the
/// destination buffers of two successful transposes of one well-formed
/// image were filled, the two results carry identical channel bytes,
/// because the typed views their contracts pin determine every byte.
pub proof fn lemma_transposed_image_unique(pre: Image, a: Image, b: Image)
    requires
        pre.wf(),
        transposed_image(pre, a),
        transposed_image(pre, b),
    ensures
        a.width == b.width,
        a.height == b.height,
        a.channels@.len() == b.channels@.len(),
        forall|i: int|
            0 <= i < a.channels@.len() ==> (#[trigger] a.channels@[i]).data@
                == b.channels@[i].data@,
{
    assert forall|i: int| 0 <= i < a.channels@.len() implies (#[trigger] a.channels@[i]).data@
        == b.channels@[i].data@ by {
        let pc = pre.channels@[i];
        let ac = a.channels@[i].data@;
        let bc = b.channels@[i].data@;
        assert(pc.encoding == pre.encoding && pc.data@.len() == pre.spec_channel_bytes());
        let area = pre.width as int * pre.height as int;
        match pre.encoding {
            SampleEncoding::U8 => {},
            SampleEncoding::U16 => {
                lemma_fundamental_div_mod_converse(area * 2, 2, area, 0);
                crate::channel::lemma_u16_view_determines_bytes(ac, bc);
            },
            _ => {
                lemma_fundamental_div_mod_converse(area * 4, 4, area, 0);
                crate::channel::lemma_u32_view_determines_bytes(ac, bc);
            },
        }
    }
}

/// Which transpose realization runs for the 8- and 16-bit kernels.
#[derive(Clone, Copy, Debug, PartialEq, Eq, Structural)]
pub enum TransposePath {
    /// The portable clipped-tile path.
    Scalar,
    /// The 8x8-block path with scalar remainder strips, the layout of a
    /// wide-register transpose.
    Blocked8,
}

/// The runtime capability decision: route integer transposes through the
/// block-structured path exactly when the host reports that the
/// accelerated capability is present. The probe itself and its
/// once-per-process caching live with the host; since both paths are
/// proved to produce identical output, the choice never changes results.
pub fn select_transpose_path(accelerated_supported: bool) -> (r: TransposePath)
    ensures
        r == (if accelerated_supported {
            TransposePath::Blocked8
        } else {
            TransposePath::Scalar
        }),
{
    if accelerated_supported {
        TransposePath::Blocked8
    } else {
        TransposePath::Scalar
    }
}

/// The sample encodings the transpose operation declares support for.
pub open spec fn transpose_supports_encoding(e: SampleEncoding) -> bool {
    e == SampleEncoding::U8 || e == SampleEncoding::U16 || e == SampleEncoding::F32
}

/// How a successful transpose rewrites an image: width and height are
/// exchanged, colorspace and encoding kept, and every channel's typed
/// sample grid is transposed.
pub open spec fn transposed_image(pre: Image, post: Image) -> bool {
    &&& post.width == pre.height
    &&& post.height == pre.width
    &&& post.colorspace == pre.colorspace
    &&& post.encoding == pre.encoding
    &&& post.channels@.len() == pre.channels@.len()
    &&& forall|i: int|
        0 <= i < pre.channels@.len() ==> {
            let pc = #[trigger] pre.channels@[i];
            let qc = post.channels@[i];
            &&& qc.encoding == pc.encoding
            &&& qc.data@.len() == pc.data@.len()
            &&& match pre.encoding {
                SampleEncoding::U8 => qc.data@ == transposed_seq(
                    pc.data@,
                    pre.width as int,
                    pre.height as int,
                ),
                SampleEncoding::U16 => u16_view(qc.data@) == transposed_seq(
                    u16_view(pc.data@),
                    pre.width as int,
                    pre.height as int,
                ),
                _ => u32_view(qc.data@) == transposed_seq(
                    u32_view(pc.data@),
                    pre.width as int,
                    pre.height as int,
                ),
            }
        }
}

/// The transpose operation. It imposes no colorspace restriction: every
/// band of any layout, alpha included, is transposed the same way.
#[derive(Default)]
pub struct Transpose {
}

impl Transpose {
    /// Create a new transpose operation.
    #[must_use]
    pub fn new() -> (r: Transpose) {
        Transpose {}
    }

    /// The operation's name.
    pub fn name(&self) -> (r: OpName)
        ensures
            r == OpName::Transpose,
    {
        OpName::Transpose
    }

    /// The sample encodings this operation declares support for.
    pub fn supported_sample_encodings(&self) -> (r: Vec<SampleEncoding>)
        ensures
            r@ == seq![SampleEncoding::U8, SampleEncoding::U16, SampleEncoding::F32],
            forall|e: SampleEncoding| r@.contains(e) <==> transpose_supports_encoding(e),
    {
        let mut r: Vec<SampleEncoding> = Vec::new();
        r.push(SampleEncoding::U8);
        r.push(SampleEncoding::U16);
        r.push(SampleEncoding::F32);
        proof {
            assert(r@ =~= seq![SampleEncoding::U8, SampleEncoding::U16, SampleEncoding::F32]);
            assert forall|e: SampleEncoding| r@.contains(e) <==> transpose_supports_encoding(
                e,
            ) by {
                if transpose_supports_encoding(e) {
                    if e == SampleEncoding::U8 {
                        assert(r@[0] == e);
                    } else if e == SampleEncoding::U16 {
                        assert(r@[1] == e);
                    } else {
                        assert(r@[2] == e);
                    }
                }
                if r@.contains(e) {
                    let j = choose|j: int| 0 <= j < r@.len() && r@[j] == e;
                    assert(j == 0 || j == 1 || j == 2);
                }
            }
        }
        r
    }

    /// Execute transpose on an image through the portable scalar path.
    pub fn execute(&self, image: &mut Image) -> (r: Result<(), OpError>)
        requires
            old(image).wf(),
        ensures
            final(image).wf(),
            !transpose_supports_encoding(old(image).encoding) ==> r == Err::<(), OpError>(
                OpError::UnsupportedSampleEncoding(OpName::Transpose, old(image).encoding),
            ) && *final(image) == *old(image),
            transpose_supports_encoding(old(image).encoding) ==> r == Ok::<(), OpError>(())
                && transposed_image(*old(image), *final(image)),
    {
        self.execute_with_path(image, TransposePath::Scalar)
    }

    /// Execute transpose on an image, routing the 8- and 16-bit kernels
    /// through the chosen realization. Floating-point channels always take
    /// the scalar path. The contract does not depend on the path: both
    /// realizations produce identical buffers.
    ///
    /// For each channel a destination buffer of the transposed shape is
    /// allocated, filled, and swapped in; afterwards the image's recorded
    /// width and height are exchanged, so the image is never left with
    /// buffers inconsistent with its dimensions.
    pub fn execute_with_path(&self, image: &mut Image, path: TransposePath) -> (r: Result<
        (),
        OpError,
    >)
        requires
            old(image).wf(),
        ensures
            final(image).wf(),
            !transpose_supports_encoding(old(image).encoding) ==> r == Err::<(), OpError>(
                OpError::UnsupportedSampleEncoding(OpName::Transpose, old(image).encoding),
            ) && *final(image) == *old(image),
            transpose_supports_encoding(old(image).encoding) ==> r == Ok::<(), OpError>(())
                && transposed_image(*old(image), *final(image)),
    {
        let sup_enc = self.supported_sample_encodings();
        if let Err(e) = check_encoding_support(OpName::Transpose, &sup_enc, image) {
            return Err(e);
        }
        let (width, height) = image.dimensions();
        let n = image.channel_count();
        let ghost w = width as int;
        let ghost h = height as int;
        let mut out: Vec<ChannelBuffer> = Vec::new();
        let mut i: usize = 0;
        while i < n
            invariant
                i <= n,
                n == image.channels@.len(),
                *image == *old(image),
                image.wf(),
                transpose_supports_encoding(image.encoding),
                width == image.width,
                height == image.height,
                out@.len() == i,
                forall|j: int|
                    0 <= j < i ==> {
                        let pc = #[trigger] image.channels@[j];
                        let qc = out@[j];
                        &&& qc.encoding == pc.encoding
                        &&& qc.data@.len() == pc.data@.len()
                        &&& match image.encoding {
                            SampleEncoding::U8 => qc.data@ == transposed_seq(pc.data@, w, h),
                            SampleEncoding::U16 => u16_view(qc.data@) == transposed_seq(
                                u16_view(pc.data@),
                                w,
                                h,
                            ),
                            _ => u32_view(qc.data@) == transposed_seq(u32_view(pc.data@), w, h),
                        }
                    },
            decreases n - i,
        {
            let ch = &image.channels[i];
            let nc = match image.sample_encoding() {
                SampleEncoding::U8 => {
                    let mut dst = filled_vec(ch.data.len(), 0u8);
                    match path {
                        TransposePath::Scalar => transpose_generic(&ch.data, &mut dst, width, height),
                        TransposePath::Blocked8 => transpose_u8(&ch.data, &mut dst, width, height),
                    }
                    ChannelBuffer { data: dst, encoding: SampleEncoding::U8 }
                },
                SampleEncoding::U16 => {
                    proof {
                        lemma_fundamental_div_mod_converse(
                            (width * height) as int * 2,
                            2,
                            (width * height) as int,
                            0,
                        );
                    }
                    let samples = match ch.to_u16_samples() {
                        Ok(s) => s,
                        Err(e) => { return Err(OpError::Reinterpret(e)) },
                    };
                    let mut dst = filled_vec(samples.len(), 0u16);
                    match path {
                        TransposePath::Scalar => transpose_generic(&samples, &mut dst, width, height),
                        TransposePath::Blocked8 => transpose_u16(&samples, &mut dst, width, height),
                    }
                    ChannelBuffer::from_u16_samples(&dst)
                },
                SampleEncoding::F32 => {
                    proof {
                        lemma_fundamental_div_mod_converse(
                            (width * height) as int * 4,
                            4,
                            (width * height) as int,
                            0,
                        );
                    }
                    let groups = match ch.to_u32_groups(SampleEncoding::F32) {
                        Ok(s) => s,
                        Err(e) => { return Err(OpError::Reinterpret(e)) },
                    };
                    let mut dst = filled_vec(groups.len(), 0u32);
                    // floating-point samples have no accelerated path and
                    // always use the generic realization
                    transpose_generic(&groups, &mut dst, width, height);
                    ChannelBuffer::from_u32_groups(&dst, SampleEncoding::F32)
                },
                SampleEncoding::U32 => {
                    // encoding validation already rejected this arm
                    return Err(
                        OpError::UnsupportedSampleEncoding(OpName::Transpose, SampleEncoding::U32),
                    );
                },
            };
            out.push(nc);
            i += 1;
        }
        image.channels = out;
        image.width = height;
        image.height = width;
        proof {
            lemma_mul_is_commutative(w, h);
            assert forall|i2: int| 0 <= i2 < image.channels@.len() implies ((
            #[trigger] image.channels@[i2]).encoding == image.encoding
                && image.channels@[i2].data@.len() == image.spec_channel_bytes()) by {
                assert(old(image).channels@[i2].encoding == old(image).encoding);
            }
        }
        Ok(())
    }
}

} // verus!
