//! Trusted boundary to the `quad_rand` crate, the library's only source of
//! pseudo-random draws. Board seeding consumes these draws; everything the
//! library promises about a seeded board holds whatever values come back.

use vstd::prelude::*;

verus! {

/// Relies on quad_rand::srand: stores a seed into the process-wide
/// generator state. Nothing is promised about later draws.
pub assume_specification[ quad_rand::srand ](seed: u64);

/// Relies on quad_rand::gen_range: maps one draw of the process-wide
/// generator into the range `low..=high`. Its source interpolates in
/// floating point, `low + (high - low) * (draw / 2^32)`, then casts; the
/// interpolant stays below `high`, but the rounding of the sum can land on
/// `high` itself when `high` is large, so `high` is a possible result. The
/// draw itself is arbitrary.
#[verifier::external_body]
pub(crate) fn gen_range_u32(low: u32, high: u32) -> (r: u32)
    requires
        low < high,
    ensures
        low <= r <= high,
{
    quad_rand::gen_range(low, high)
}

} // verus!
