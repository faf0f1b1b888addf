use vstd::prelude::*;

use crate::error::CoreError;

verus! {

/// A seed: 32 bytes derived from pixel data.
pub type Seed = [u8; 32];

/// Addition of two bytes modulo 256.
pub open spec fn wrap_add(a: u8, b: u8) -> u8 {
    ((a + b) % 256) as u8
}

/// The byte that stands for pixel `i`: its four RGBA channels added modulo 256.
pub open spec fn pixel_byte(rgba: Seq<u8>, i: int) -> u8 {
    wrap_add(wrap_add(wrap_add(rgba[4 * i], rgba[4 * i + 1]), rgba[4 * i + 2]), rgba[4 * i + 3])
}

/// The pixel bytes of pixels `lo .. hi`, folded from 0 by addition modulo 256.
pub open spec fn fold_pixels(rgba: Seq<u8>, lo: int, hi: int) -> u8
    decreases hi - lo,
{
    if hi <= lo {
        0
    } else {
        wrap_add(fold_pixels(rgba, lo, hi - 1), pixel_byte(rgba, hi - 1))
    }
}

/// Number of whole pixels in an RGBA byte sequence.
pub open spec fn pixel_count(rgba: Seq<u8>) -> nat {
    rgba.len() / 4
}

/// Number of pixels folded into each seed byte; the remainder is ignored.
pub open spec fn chunk_len(rgba: Seq<u8>) -> nat {
    pixel_count(rgba) / 32
}

/// The seed of an RGBA byte sequence: byte `k` folds the `k`-th run of
/// `chunk_len` consecutive pixels.
pub open spec fn seed_of(rgba: Seq<u8>) -> Seq<u8> {
    Seq::new(
        32,
        |k: int| fold_pixels(rgba, k * chunk_len(rgba), (k + 1) * chunk_len(rgba)),
    )
}

/// Plain (non-wrapping) sum of a byte sequence.
pub open spec fn byte_sum(s: Seq<u8>) -> int
    decreases s.len(),
{
    if s.len() == 0 {
        0
    } else {
        byte_sum(s.drop_last()) + s.last()
    }
}

/// A grid of RGBA pixels stored row by row, four bytes per pixel.
#[derive(Debug, Clone)]
pub struct PixelBuffer {
    pub width: u32,
    pub height: u32,
    pub rgba: Vec<u8>,
}

impl PixelBuffer {
    /// At least one pixel, and exactly four bytes for each of them.
    pub open spec fn wf(&self) -> bool {
        &&& self.width * self.height >= 1
        &&& self.rgba@.len() == 4 * (self.width * self.height)
    }

    /// Builds a buffer when `rgba` holds exactly `width * height >= 1` pixels.
    pub fn new(width: u32, height: u32, rgba: Vec<u8>) -> (r: Option<PixelBuffer>)
        ensures
            r is Some <==> (width * height >= 1 && rgba@.len() == 4 * (width * height)),
            r matches Some(p) ==> p.wf() && p.width == width && p.height == height && p.rgba@
                == rgba@,
    {
        assert(width as int * height as int <= u32::MAX as int * u32::MAX as int)
            by (nonlinear_arith);
        let n: u64 = width as u64 * height as u64;
        let len: usize = rgba.len();
        if n == 0 || len % 4 != 0 || (len / 4) as u64 != n {
            proof {
                if width * height >= 1 && rgba@.len() == 4 * (width * height) {
                    assert(len == 4 * (width * height));
                }
            }
            None
        } else {
            assert(len == 4 * n);
            Some(PixelBuffer { width, height, rgba })
        }
    }

    /// The number of pixels.
    pub fn pixel_count(&self) -> (r: usize)
        requires
            self.wf(),
        ensures
            r == self.width * self.height,
            r == pixel_count(self.rgba@),
    {
        assert(self.rgba@.len() == 4 * (self.width * self.height)) by (nonlinear_arith)
            requires
                self.rgba@.len() == 4 * (self.width * self.height),
        ;
        self.rgba.len() / 4
    }
}

/// Byte addition modulo 256.
fn add_wrapping(a: u8, b: u8) -> (r: u8)
    ensures
        r == wrap_add(a, b),
{
    a.wrapping_add(b)
}

/// The byte that stands for pixel `i`.
fn pixel_byte_at(rgba: &Vec<u8>, i: usize) -> (r: u8)
    requires
        4 * i + 3 < rgba@.len(),
    ensures
        r == pixel_byte(rgba@, i as int),
{
    let len: usize = rgba.len();
    assert(4 * i + 3 < len);
    let b: usize = 4 * i;
    let rg = add_wrapping(rgba[b], rgba[b + 1]);
    let rgb = add_wrapping(rg, rgba[b + 2]);
    add_wrapping(rgb, rgba[b + 3])
}

/// The sum of the 32 seed bytes.
pub fn checksum(seed: &Seed) -> (r: usize)
    ensures
        r == byte_sum(seed@),
        r <= 32 * 255,
{
    let mut sum: usize = 0;
    let mut k: usize = 0;
    while k < 32
        invariant
            k <= 32,
            seed@.len() == 32,
            sum == byte_sum(seed@.take(k as int)),
            sum <= 255 * k,
        decreases 32 - k,
    {
        assert(seed@.take(k + 1).drop_last() == seed@.take(k as int));
        sum = sum + seed[k] as usize;
        k = k + 1;
    }
    assert(seed@.take(32) == seed@);
    sum
}

/// Derives the seed and its checksum from the pixels, or fails when there
/// are fewer than 32 of them.
pub fn derive_seed(pixels: &PixelBuffer) -> (r: Result<(Seed, usize), CoreError>)
    requires
        pixels.wf(),
    ensures
        r is Err <==> pixel_count(pixels.rgba@) < 32,
        r is Err ==> r == Err::<(Seed, usize), CoreError>(CoreError::InsufficientPixels),
        r matches Ok((seed, sum)) ==> seed@ == seed_of(pixels.rgba@) && sum == byte_sum(seed@),
{
    let rgba = &pixels.rgba;
    let n: usize = rgba.len() / 4;
    if n < 32 {
        return Err(CoreError::InsufficientPixels);
    }
    let chunk: usize = n / 32;
    let mut seed: Seed = [0u8; 32];
    let mut k: usize = 0;
    while k < 32
        invariant
            k <= 32,
            n == pixel_count(rgba@),
            chunk == chunk_len(rgba@),
            32 * chunk <= n,
            forall|j: int| 0 <= j < k ==> seed@[j] == seed_of(rgba@)[j],
        decreases 32 - k,
    {
        assert(k * chunk + chunk <= 32 * chunk && (k + 1) * chunk == k * chunk + chunk)
            by (nonlinear_arith)
            requires
                k < 32,
        ;
        let lo: usize = k * chunk;
        let hi: usize = lo + chunk;
        let mut acc: u8 = 0;
        let mut i: usize = lo;
        while i < hi
            invariant
                lo <= i <= hi,
                hi <= n,
                n == pixel_count(rgba@),
                acc == fold_pixels(rgba@, lo as int, i as int),
            decreases hi - i,
        {
            acc = add_wrapping(acc, pixel_byte_at(rgba, i));
            i = i + 1;
        }
        seed[k] = acc;
        k = k + 1;
    }
    assert(seed@ == seed_of(rgba@));
    let sum = checksum(&seed);
    Ok((seed, sum))
}

} // verus!
