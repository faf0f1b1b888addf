use vstd::prelude::*;

use rand::rngs::StdRng;
use rand::Rng;
use rand::SeedableRng;

use crate::pixels::Seed;

verus! {

#[verifier::external_type_specification]
#[verifier::external_body]
pub struct ExStdRng(rand::rngs::StdRng);

/// Relies on StdRng's SeedableRng::from_seed: a generator whose whole output
/// sequence is fixed by the 32 seed bytes.
#[verifier::external_body]
fn std_rng_from_seed(seed: Seed) -> (r: StdRng) {
    StdRng::from_seed(seed)
}

/// One draw made on a generator, with its arguments.
pub enum Draw {
    Range(u32, u32),
    Ratio(u32, u32),
    /// RSA key generation with a modulus of this many bits.
    RsaKey(usize),
    /// PKCS#1 v1.5 padding under a key with a modulus of the first number of
    /// bits, for a message of the second number of bytes.
    RsaPadding(usize, usize),
}

/// What `gen_range(lo..hi)` returns on a generator seeded with `seed` that
/// has made exactly the draws in `before`.
pub uninterp spec fn range_draw_of(seed: Seq<u8>, before: Seq<Draw>, lo: u32, hi: u32) -> u32;

/// What `gen_ratio(numerator, denominator)` returns on a generator seeded with
/// `seed` that has made exactly the draws in `before`.
pub uninterp spec fn ratio_draw_of(
    seed: Seq<u8>,
    before: Seq<Draw>,
    numerator: u32,
    denominator: u32,
) -> bool;

/// A pseudo-random generator whose output is a function of its seed alone.
/// Beside the generator it records, as ghost state, the seed and the draws
/// made so far; the generator is reached only through the draws below and
/// the RSA calls, each of which records itself.
pub struct DeterministicGenerator {
    pub(crate) rng: StdRng,
    seed: Ghost<Seq<u8>>,
    drawn: Ghost<Seq<Draw>>,
}

/// Relies on Rng::gen_range over `lo..hi`: a value in the half-open range;
/// it panics only on an empty range. StdRng's output is fixed by its seed
/// and the calls made on it, so the value is fixed by the seed, the earlier
/// draws and the range.
#[verifier::external_body]
fn std_rng_gen_range(g: &mut DeterministicGenerator, lo: u32, hi: u32) -> (r: u32)
    requires
        lo < hi,
    ensures
        lo <= r < hi,
        r == range_draw_of(old(g).seed@, old(g).drawn@, lo, hi),
        final(g).seed@ == old(g).seed@,
        final(g).drawn@ == old(g).drawn@.push(Draw::Range(lo, hi)),
{
    g.rng.gen_range(lo..hi)
}

/// Relies on Rng::gen_ratio: `true` with probability numerator / denominator,
/// always `false` for a zero numerator and always `true` when the two are
/// equal; it panics when the denominator is zero or below the numerator. As
/// for `gen_range`, the value is fixed by the seed, the earlier draws and the
/// arguments.
#[verifier::external_body]
fn std_rng_gen_ratio(g: &mut DeterministicGenerator, numerator: u32, denominator: u32) -> (r:
    bool)
    requires
        0 < denominator,
        numerator <= denominator,
    ensures
        numerator == 0 ==> !r,
        numerator == denominator ==> r,
        r == ratio_draw_of(old(g).seed@, old(g).drawn@, numerator, denominator),
        final(g).seed@ == old(g).seed@,
        final(g).drawn@ == old(g).drawn@.push(Draw::Ratio(numerator, denominator)),
{
    g.rng.gen_ratio(numerator, denominator)
}

impl DeterministicGenerator {
    /// The seed the generator was made from.
    pub closed spec fn seed(&self) -> Seq<u8> {
        self.seed@
    }

    /// The draws made so far, oldest first.
    pub closed spec fn drawn(&self) -> Seq<Draw> {
        self.drawn@
    }

    /// A generator seeded with `seed`; no other entropy is used.
    pub fn new(seed: &Seed) -> (r: DeterministicGenerator)
        ensures
            r.seed() == seed@,
            r.drawn() == Seq::<Draw>::empty(),
    {
        DeterministicGenerator {
            rng: std_rng_from_seed(*seed),
            seed: Ghost(seed@),
            drawn: Ghost(Seq::empty()),
        }
    }

    /// Draws an integer uniformly from `lo .. hi`.
    pub fn draw_range(&mut self, lo: u32, hi: u32) -> (r: u32)
        requires
            lo < hi,
        ensures
            lo <= r < hi,
            r == range_draw_of(old(self).seed(), old(self).drawn(), lo, hi),
            final(self).seed() == old(self).seed(),
            final(self).drawn() == old(self).drawn().push(Draw::Range(lo, hi)),
    {
        std_rng_gen_range(self, lo, hi)
    }

    /// Draws a boolean that is `true` with probability `numerator / denominator`.
    pub fn draw_ratio(&mut self, numerator: u32, denominator: u32) -> (r: bool)
        requires
            0 < denominator,
            numerator <= denominator,
        ensures
            numerator == 0 ==> !r,
            numerator == denominator ==> r,
            r == ratio_draw_of(old(self).seed(), old(self).drawn(), numerator, denominator),
            final(self).seed() == old(self).seed(),
            final(self).drawn() == old(self).drawn().push(Draw::Ratio(numerator, denominator)),
    {
        std_rng_gen_ratio(self, numerator, denominator)
    }
}

} // verus!
