use vstd::prelude::*;

verus! {

/// Samples that volumetric occlusion takes when a source asks for
/// `requested` and the simulator allows at most `max`.
pub open spec fn clamped_samples(requested: nat, max: nat) -> nat {
    if requested <= max {
        requested
    } else {
        max
    }
}

/// Clamps a requested occlusion sample count to the simulator's maximum.
/// Asking for too many is corrected, never refused.
pub fn effective_occlusion_samples(requested: usize, max: usize) -> (r: usize)
    ensures
        r as nat == clamped_samples(requested as nat, max as nat),
        r <= max,
        r <= requested,
{
    if requested <= max {
        requested
    } else {
        max
    }
}

/// Asking for any number of samples above the maximum behaves exactly as
/// asking for the maximum itself, and never takes more than the maximum.
pub proof fn lemma_samples_above_max_are_clamped(max: nat, extra: nat)
    ensures
        clamped_samples(max + extra, max) == clamped_samples(max, max),
        clamped_samples(max + extra, max) == max,
{
}

} // verus!
