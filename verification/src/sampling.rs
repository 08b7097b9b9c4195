//! Random generation for the seeder: alphanumeric strings and Zipfian
//! popularity sampling.
//!
//! Randomness comes from an explicitly passed [`RandomSource`], seeded by
//! the caller, so that a run can be made deterministic. Nothing is assumed
//! about the drawn values beyond their shape: a drawn string's length and
//! alphabet, a drawn rank's range.

use vstd::prelude::*;

use rand::distributions::DistString;
use rand::distributions::Distribution;

verus! {

#[verifier::external_type_specification]
#[verifier::external_body]
pub struct ExStdRng(rand::rngs::StdRng);

#[verifier::external_type_specification]
#[verifier::external_body]
pub struct ExZipfDistribution(zipf::ZipfDistribution);

/// An explicitly threaded source of randomness.
pub struct RandomSource {
    rng: rand::rngs::StdRng,
}

/// Relies on `rand::SeedableRng::seed_from_u64`: a generator whose draws
/// are a fixed function of the seed.
#[verifier::external_body]
fn std_rng_from_seed(seed: u64) -> rand::rngs::StdRng {
    rand::SeedableRng::seed_from_u64(seed)
}

impl RandomSource {
    /// A source whose draws are determined by `seed`.
    pub fn from_seed(seed: u64) -> RandomSource {
        RandomSource { rng: std_rng_from_seed(seed) }
    }
}

/// The character is an ASCII letter or digit.
pub open spec fn spec_is_alphanumeric(c: char) -> bool {
    ||| 'a' as u32 <= c as u32 <= 'z' as u32
    ||| 'A' as u32 <= c as u32 <= 'Z' as u32
    ||| '0' as u32 <= c as u32 <= '9' as u32
}

/// Every character is an ASCII letter or digit.
pub open spec fn spec_alphanumeric(s: Seq<char>) -> bool {
    forall|i: int| 0 <= i < s.len() ==> spec_is_alphanumeric(#[trigger] s[i])
}

/// Relies on `rand::distributions::Uniform` over an inclusive range and on
/// `rand::distributions::Alphanumeric`, whose samples are the characters
/// a-z, A-Z and 0-9: a random string whose length lies in [lower, upper].
#[verifier::external_body]
pub(crate) fn random_string(rs: &mut RandomSource, lower: usize, upper: usize) -> (r: String)
    requires
        lower <= upper,
    ensures
        lower <= r@.len() <= upper,
        spec_alphanumeric(r@),
{
    let len = rand::distributions::Uniform::new_inclusive(lower, upper).sample(&mut rs.rng);
    rand::distributions::Alphanumeric.sample_string(&mut rs.rng, len)
}

/// The number of items a popularity distribution was built over.
pub uninterp spec fn zipf_item_count(d: zipf::ZipfDistribution) -> usize;

/// Relies on `zipf::ZipfDistribution::new`, which accepts any positive item
/// count together with the seeder's fixed skew exponent of 1.05. The
/// exponent lives only in this trusted body — a float cannot appear in
/// verified code — so no contract constrains its value; a test checks the
/// resulting skew empirically.
#[allow(deprecated)]
#[verifier::external_body]
pub(crate) fn zipf_new(n: usize) -> (d: zipf::ZipfDistribution)
    requires
        n >= 1,
    ensures
        zipf_item_count(d) == n,
{
    zipf::ZipfDistribution::new(n, "1.05".parse().unwrap()).unwrap()
}

/// Relies on `zipf::ZipfDistribution`'s `sample`: the drawn rank is clamped
/// to [1, item count], rank 1 being the most probable.
#[allow(deprecated)]
#[verifier::external_body]
pub(crate) fn zipf_rank(d: &zipf::ZipfDistribution, rs: &mut RandomSource) -> (r: usize)
    ensures
        1 <= r <= zipf_item_count(*d),
{
    d.sample(&mut rs.rng)
}

/// Draws a popularity-skewed index into a collection of `zipf_item_count`
/// items: the 1-based rank becomes a 0-based index in generation order, so
/// index 0 — the earliest-generated item — is the most probable.
pub fn zipf_index(d: &zipf::ZipfDistribution, rs: &mut RandomSource) -> (i: usize)
    ensures
        i < zipf_item_count(*d),
{
    let rank = zipf_rank(d, rs);
    rank - 1
}

} // verus!
