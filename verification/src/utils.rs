//! Uniform integer sampling.
//!
//! The renderer draws random integers in two places: to pick a split axis
//! while building the bounding-volume hierarchy, and to shuffle the
//! permutation tables of the gradient-noise hash. The draw itself comes
//! from an outside generator; everything stated here holds of every value
//! it can hand back.

use rand::Rng;
use vstd::prelude::*;

verus! {

/// Relies on `rand::rng` and `rand::Rng::random_range`: a draw from the
/// half-open range `min..max_excl`, which panics only when the range is
/// empty and otherwise returns a value inside it.
#[verifier::external_body]
fn sample_range(min: i32, max_excl: i32) -> (r: i32)
    requires
        min < max_excl,
    ensures
        min <= r < max_excl,
{
    rand::rng().random_range(min..max_excl)
}

/// Returns a random integer in the closed range `[min, max]`.
pub fn random_int_range(min: i32, max: i32) -> (r: i32)
    requires
        min <= max,
        max < i32::MAX,
    ensures
        min <= r <= max,
{
    let max = max + 1;
    sample_range(min, max)
}

} // verus!
