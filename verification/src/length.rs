//! Clause lengths: a sampled length is held to the bounds that were asked for.

use vstd::prelude::*;

verus! {

/// The sampled length, moved to the nearer bound where it lies outside
/// `low..=high`.
pub open spec fn clamped_length(sampled: nat, low: nat, high: nat) -> nat {
    if sampled < low {
        low
    } else if sampled > high {
        high
    } else {
        sampled
    }
}

/// Holds a sampled clause length to `low..=high`. The caller samples a real
/// number and truncates it; rounding may leave the result just outside the
/// bounds, and this brings it back.
pub fn clamp_length(sampled: usize, low: usize, high: usize) -> (length: usize)
    ensures
        length == clamped_length(sampled as nat, low as nat, high as nat),
        low <= high ==> low <= length <= high,
        low <= sampled <= high ==> length == sampled,
{
    if sampled < low {
        low
    } else if sampled > high {
        high
    } else {
        sampled
    }
}

} // verus!
