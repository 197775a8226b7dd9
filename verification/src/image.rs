//! In-memory images and the pixel reshuffling around file I/O.
//!
//! An image is a width, a height and tightly packed pixel bytes. Decoded
//! picture files arrive as RGB and gain a zeroed alpha channel; pixel data
//! read back from a render target arrives bottom row first and is flipped to
//! top-to-bottom order before it is written out. Decoding and encoding the
//! files themselves is I/O and happens outside the verified core.

use vstd::prelude::*;
use vstd::arithmetic::mul::lemma_mul_inequality;
use vstd::arithmetic::mul::lemma_mul_is_distributive_add_other_way;
use vstd::arithmetic::mul::lemma_mul_nonnegative;

verus! {

/// RGB bytes extended with a zeroed alpha byte after every third byte; a
/// trailing group of fewer than three bytes stays as it is.
pub open spec fn spec_rgb_to_rgba(s: Seq<u8>) -> Seq<u8>
    decreases s.len(),
{
    if s.len() >= 3 {
        s.take(3) + seq![0u8] + spec_rgb_to_rgba(s.skip(3))
    } else {
        s
    }
}

/// Extending the processed prefix by one full pixel appends its three bytes
/// and a zero.
proof fn lemma_rgba_snoc(s: Seq<u8>, k: int)
    requires
        0 <= k,
        k + 3 <= s.len(),
        k % 3 == 0,
    ensures
        spec_rgb_to_rgba(s.take(k + 3)) == spec_rgb_to_rgba(s.take(k)) + s.subrange(k, k + 3)
            + seq![0u8],
    decreases k,
{
    if k == 0 {
        assert(s.take(0) =~= Seq::<u8>::empty());
        assert(s.take(3).len() == 3);
        assert(s.take(3).take(3) =~= s.subrange(0, 3));
        assert(s.take(3).skip(3) =~= Seq::<u8>::empty());
        assert(spec_rgb_to_rgba(Seq::<u8>::empty()) =~= Seq::<u8>::empty());
        assert(spec_rgb_to_rgba(s.take(3)) == s.take(3).take(3) + seq![0u8] + spec_rgb_to_rgba(
            s.take(3).skip(3),
        ));
        assert(spec_rgb_to_rgba(s.take(3)) =~= s.subrange(0, 3) + seq![0u8]);
        assert(spec_rgb_to_rgba(s.take(0)) + s.subrange(0, 3) + seq![0u8] =~= s.subrange(0, 3)
            + seq![0u8]);
    } else {
        let t = s.skip(3);
        lemma_rgba_snoc(t, k - 3);
        assert(s.take(k + 3).take(3) =~= s.take(k).take(3));
        assert(s.take(k + 3).skip(3) =~= t.take(k));
        assert(s.take(k).skip(3) =~= t.take(k - 3));
        assert(t.subrange(k - 3, k) =~= s.subrange(k, k + 3));
        assert(spec_rgb_to_rgba(s.take(k + 3)) =~= s.take(3) + seq![0u8] + (spec_rgb_to_rgba(
            t.take(k - 3),
        ) + s.subrange(k, k + 3) + seq![0u8]));
        assert(spec_rgb_to_rgba(s.take(k)) =~= s.take(3) + seq![0u8] + spec_rgb_to_rgba(
            t.take(k - 3),
        ));
        assert(spec_rgb_to_rgba(s.take(k)) + s.subrange(k, k + 3) + seq![0u8] =~= s.take(3)
            + seq![0u8] + (spec_rgb_to_rgba(t.take(k - 3)) + s.subrange(k, k + 3) + seq![0u8]));
    }
}

/// A short trailing group passes through unchanged.
proof fn lemma_rgba_tail(s: Seq<u8>, k: int)
    requires
        0 <= k <= s.len(),
        s.len() - k < 3,
        k % 3 == 0,
    ensures
        spec_rgb_to_rgba(s) == spec_rgb_to_rgba(s.take(k)) + s.skip(k),
    decreases k,
{
    if k == 0 {
        assert(s.take(0) =~= Seq::<u8>::empty());
        assert(s.skip(0) =~= s);
        assert(spec_rgb_to_rgba(s.take(0)) + s =~= s);
        assert(spec_rgb_to_rgba(s) == s);
    } else {
        let t = s.skip(3);
        lemma_rgba_tail(t, k - 3);
        assert(s.take(k).take(3) =~= s.take(3));
        assert(s.take(k).skip(3) =~= t.take(k - 3));
        assert(t.skip(k - 3) =~= s.skip(k));
        assert(spec_rgb_to_rgba(s) =~= s.take(3) + seq![0u8] + (spec_rgb_to_rgba(t.take(k - 3))
            + s.skip(k)));
        assert(spec_rgb_to_rgba(s.take(k)) =~= s.take(3) + seq![0u8] + spec_rgb_to_rgba(
            t.take(k - 3),
        ));
        assert(spec_rgb_to_rgba(s.take(k)) + s.skip(k) =~= s.take(3) + seq![0u8] + (
        spec_rgb_to_rgba(t.take(k - 3)) + s.skip(k)));
    }
}

/// Append a zeroed alpha byte after every complete RGB triple, as decoded
/// picture data is widened before upload.
pub fn rgb_to_rgba(data: &Vec<u8>) -> (r: Vec<u8>)
    ensures
        r@ == spec_rgb_to_rgba(data@),
{
    let n = data.len();
    let mut out: Vec<u8> = Vec::new();
    let mut i: usize = 0;
    while i < n && n - i >= 3
        invariant
            i <= n,
            n == data@.len(),
            i % 3 == 0,
            out@ == spec_rgb_to_rgba(data@.take(i as int)),
        decreases n - i,
    {
        let ghost before = out@;
        out.push(data[i]);
        out.push(data[i + 1]);
        out.push(data[i + 2]);
        out.push(0u8);
        proof {
            lemma_rgba_snoc(data@, i as int);
            assert(out@ =~= before + data@.subrange(i as int, i as int + 3) + seq![0u8]);
        }
        i = i + 3;
    }
    let ghost whole = i;
    while i < n
        invariant
            whole <= i <= n,
            n == data@.len(),
            whole % 3 == 0,
            n - whole < 3,
            out@ == spec_rgb_to_rgba(data@.take(whole as int)) + data@.subrange(
                whole as int,
                i as int,
            ),
        decreases n - i,
    {
        let ghost before = out@;
        out.push(data[i]);
        proof {
            assert(data@.subrange(whole as int, i as int + 1) =~= data@.subrange(
                whole as int,
                i as int,
            ).push(data@[i as int]));
            assert(before.push(data@[i as int]) =~= spec_rgb_to_rgba(data@.take(whole as int))
                + data@.subrange(whole as int, i as int + 1));
        }
        i = i + 1;
    }
    proof {
        lemma_rgba_tail(data@, whole as int);
        assert(data@.subrange(whole as int, n as int) =~= data@.skip(whole as int));
    }
    out
}

/// A width, a height and the image's tightly packed pixel bytes.
pub struct Image {
    width: u32,
    height: u32,
    data: Vec<u8>,
}

impl Image {
    /// Pixel bytes in row-major, top-to-bottom order.
    pub closed spec fn spec_data(self) -> Seq<u8> {
        self.data@
    }

    /// The image width in pixels.
    pub closed spec fn spec_width(self) -> u32 {
        self.width
    }

    /// The image height in pixels.
    pub closed spec fn spec_height(self) -> u32 {
        self.height
    }

    /// Return the width of the image.
    pub fn get_width(&self) -> (w: u32)
        ensures
            w == self.spec_width(),
    {
        self.width
    }

    /// Return the height of the image.
    pub fn get_height(&self) -> (h: u32)
        ensures
            h == self.spec_height(),
    {
        self.height
    }

    /// Return a copy of the pixel data of the image.
    pub fn get_data(&self) -> (r: Vec<u8>)
        ensures
            r@ == self.spec_data(),
    {
        let mut r: Vec<u8> = Vec::with_capacity(self.data.len());
        let mut i: usize = 0;
        while i < self.data.len()
            invariant
                i <= self.data@.len(),
                r@.len() == i,
                forall|j: int| 0 <= j < i ==> r@[j] == self.data@[j],
            decreases self.data@.len() - i,
        {
            r.push(self.data[i]);
            i = i + 1;
        }
        assert(r@ =~= self.data@);
        r
    }

    /// An image built directly from decoded pixel bytes, already in
    /// top-to-bottom order.
    pub fn from_pixels(width: u32, height: u32, data: Vec<u8>) -> (img: Image)
        ensures
            img.spec_width() == width,
            img.spec_height() == height,
            img.spec_data() == data@,
    {
        Image { width, height, data }
    }

    /// Create a new image from raw RGB data read back bottom row first, as a
    /// render-target snapshot arrives: row `y` of the image is row
    /// `height - 1 - y` of the input.
    pub fn create_from_raw_data(width: u32, height: u32, data: &Vec<u8>) -> (img: Image)
        requires
            data@.len() == width * height * 3,
            width * height * 3 <= usize::MAX,
            width * 3 <= usize::MAX,
        ensures
            img.spec_width() == width,
            img.spec_height() == height,
            img.spec_data().len() == data@.len(),
            forall|y: int, x: int|
                0 <= y < height && 0 <= x < width * 3 ==> #[trigger] img.spec_data()[y * (width * 3)
                    + x] == data@[(height - 1 - y) * (width * 3) + x],
    {
        let row: usize = (width as usize) * 3;
        proof {
            assert(width * height * 3 == height * (width * 3)) by (nonlinear_arith);
            lemma_mul_nonnegative(height as int, width as int * 3);
        }
        let mut flipped: Vec<u8> = Vec::with_capacity(data.len());
        let mut y: usize = 0;
        while y < height as usize
            invariant
                y <= height,
                row == width * 3,
                data@.len() == height * (width * 3),
                data@.len() <= usize::MAX,
                flipped@.len() == y * (width * 3),
                forall|yy: int, x: int|
                    0 <= yy < y && 0 <= x < width * 3 ==> #[trigger] flipped@[yy * (width * 3) + x]
                        == data@[(height - 1 - yy) * (width * 3) + x],
            decreases height - y,
        {
            proof {
                lemma_mul_inequality(y as int + 1, height as int, width as int * 3);
                lemma_mul_is_distributive_add_other_way(width as int * 3, y as int, 1);
                lemma_mul_nonnegative(height as int - 1 - y as int, width as int * 3);
                lemma_mul_inequality(
                    height as int - y as int,
                    height as int,
                    width as int * 3,
                );
                lemma_mul_is_distributive_add_other_way(
                    width as int * 3,
                    height as int - 1 - y as int,
                    1,
                );
            }
            let src_base: usize = (height as usize - 1 - y) * row;
            let mut x: usize = 0;
            while x < row
                invariant
                    x <= row,
                    y < height,
                    row == width * 3,
                    data@.len() == height * (width * 3),
                    data@.len() <= usize::MAX,
                    src_base == (height - 1 - y) * (width * 3),
                    src_base + row <= data@.len(),
                    flipped@.len() == y * (width * 3) + x,
                    y * (width * 3) + row <= data@.len(),
                    forall|yy: int, xx: int|
                        0 <= yy < y && 0 <= xx < width * 3 ==> #[trigger] flipped@[yy * (width * 3)
                            + xx] == data@[(height - 1 - yy) * (width * 3) + xx],
                    forall|xx: int|
                        0 <= xx < x ==> #[trigger] flipped@[y * (width * 3) + xx] == data@[(height
                            - 1 - y) * (width * 3) + xx],
                decreases row - x,
            {
                proof {
                    assert forall|yy: int, xx: int|
                        0 <= yy < y && 0 <= xx < width * 3 implies #[trigger] (yy * (width * 3)
                        + xx) < y * (width * 3) by {
                        lemma_mul_inequality(yy + 1, y as int, width as int * 3);
                        lemma_mul_is_distributive_add_other_way(width as int * 3, yy, 1);
                    }
                }
                flipped.push(data[src_base + x]);
                x = x + 1;
            }
            proof {
                lemma_mul_is_distributive_add_other_way(width as int * 3, y as int, 1);
                assert forall|yy: int, xx: int|
                    0 <= yy < y + 1 && 0 <= xx < width * 3 implies #[trigger] flipped@[yy * (width
                    * 3) + xx] == data@[(height - 1 - yy) * (width * 3) + xx] by {
                    if yy == y as int {
                        assert(flipped@[y as int * (width * 3) + xx] == data@[(height - 1 - y)
                            * (width * 3) + xx]);
                    }
                }
            }
            y = y + 1;
        }
        Image { width, height, data: flipped }
    }
}

} // verus!
