//! Randomness: fresh identifiers and random tokens.

use vstd::prelude::*;

verus! {

/// An ASCII letter or digit.
pub open spec fn is_ascii_alphanumeric(c: char) -> bool {
    ('0' <= c <= '9') || ('A' <= c <= 'Z') || ('a' <= c <= 'z')
}

/// A text of `len` random ASCII letters and digits
/// (`rand::distr::Alphanumeric.sample_string(&mut rand::rng(), len)`).
///
/// Claims what holds of every outcome: the length and the alphabet. The
/// thread's generator panics if the system cannot seed it, which no
/// argument decides.
#[verifier::external_body]
pub(crate) fn random_alphanumeric(len: usize) -> (r: String)
    ensures
        r@.len() == len,
        forall|i: int| 0 <= i < r@.len() ==> is_ascii_alphanumeric(#[trigger] r@[i]),
{
    rand::distr::SampleString::sample_string(&rand::distr::Alphanumeric, &mut rand::rng(), len)
}

/// A random version-4 UUID (`uuid::Uuid::new_v4`).
///
/// Claims what holds of every outcome: the version nibble is 4 and the
/// variant bits are `10`.
#[verifier::external_body]
pub(crate) fn new_uuid_v4() -> (r: u128)
    ensures
        (r / 0x1_0000_0000_0000_0000_000) % 16 == 4,
        (r / 0x4000_0000_0000_0000) % 4 == 2,
{
    uuid::Uuid::new_v4().as_u128()
}

} // verus!
