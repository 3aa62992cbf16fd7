use vstd::prelude::*;
use crate::settings::PhononSource;
use phonon::effects::direct::DirectApplyFlags;

verus! {

/// The direct simulator's set of apply flags, carried as an opaque value.
#[verifier::external_type_specification]
#[verifier::external_body]
pub struct ExDirectApplyFlags(DirectApplyFlags);

/// One bit of a `u8`.
pub open spec fn is_single_bit(g: u8) -> bool {
    g == 1 || g == 2 || g == 4 || g == 8 || g == 16 || g == 32 || g == 64 || g == 128
}

/// The flags that a set of apply flags holds, each as its bit value.
pub uninterp spec fn apply_flags_held(f: DirectApplyFlags) -> Set<u8>;

/// Relies on bitflags' generated `DirectApplyFlags::from_bits_retain`: the
/// result holds exactly the bits it was given.
#[verifier::external_body]
fn apply_flags_from_bits(bits: u8) -> (r: DirectApplyFlags)
    ensures
        forall|g: u8| is_single_bit(g) ==> #[trigger] apply_flags_held(r).contains(g) == (bits & g == g),
{
    DirectApplyFlags::from_bits_retain(bits)
}

/// Bit of the distance-attenuation stage.
pub const DISTANCE_ATTENUATION: u8 = 1;
/// Bit of the air-absorption stage.
pub const AIR_ABSORPTION: u8 = 2;
/// Bit of the directivity stage.
pub const DIRECTIVITY: u8 = 4;
/// Bit of the occlusion stage.
pub const OCCLUSION: u8 = 8;
/// Bit of the transmission stage.
pub const TRANSMISSION: u8 = 16;

/// One of the five stage bits.
pub open spec fn is_stage(f: u8) -> bool {
    f == DISTANCE_ATTENUATION || f == AIR_ABSORPTION || f == DIRECTIVITY || f == OCCLUSION
        || f == TRANSMISSION
}

/// Bit value of one enabled-or-not stage.
pub open spec fn bit_if(on: bool, f: u8) -> u8 {
    if on {
        f
    } else {
        0
    }
}

/// The stage bits that a source's settings enable.
pub open spec fn source_bits(s: PhononSource) -> u8 {
    (bit_if(s.distance_attenuation, DISTANCE_ATTENUATION) + bit_if(
        s.air_absorption,
        AIR_ABSORPTION,
    ) + bit_if(s.directivity, DIRECTIVITY) + bit_if(s.occlusion, OCCLUSION) + bit_if(
        s.transmission,
        TRANSMISSION,
    )) as u8
}

/// The stages that a source's settings enable, as flags.
pub open spec fn source_flags(s: PhononSource) -> DirectFlags {
    DirectFlags { bits: source_bits(s) }
}

/// The set of simulation stages to run for one source, as a bitset whose
/// bits are those of the direct simulator's apply flags.
#[derive(Clone, Copy, Debug, PartialEq, Eq, Structural)]
pub struct DirectFlags {
    pub bits: u8,
}

impl DirectFlags {
    /// Only stage bits are set.
    pub open spec fn wf(self) -> bool {
        self.bits < 32
    }

    pub open spec fn has(self, f: u8) -> bool {
        self.bits & f == f
    }

    pub fn empty() -> (r: DirectFlags)
        ensures
            r.wf(),
            forall|f: u8| is_stage(f) ==> !r.has(f),
    {
        let r = DirectFlags { bits: 0 };
        assert forall|f: u8| is_stage(f) implies !r.has(f) by {
            assert(f != 0 ==> 0u8 & f != f) by (bit_vector);
        }
        r
    }

    pub fn contains(&self, f: u8) -> (r: bool)
        ensures
            r == self.has(f),
    {
        self.bits & f == f
    }

    /// Turns one stage on or off and leaves the others as they were.
    pub fn set(&mut self, f: u8, on: bool)
        requires
            is_stage(f),
            old(self).wf(),
        ensures
            final(self).wf(),
            final(self).has(f) == on,
            forall|g: u8|
                is_stage(g) && g != f ==> #[trigger] final(self).has(g) == old(self).has(g),
    {
        let b = self.bits;
        if on {
            self.bits = b | f;
        } else {
            self.bits = b & !f;
        }
        proof {
            let nb = self.bits;
            assert(nb < 32 && (nb & f == f) == on) by (bit_vector)
                requires
                    b < 32,
                    f == 1u8 || f == 2u8 || f == 4u8 || f == 8u8 || f == 16u8,
                    on ==> nb == b | f,
                    !on ==> nb == b & !f,
            ;
            assert forall|g: u8| is_stage(g) && g != f implies (nb & g == g) == (b & g == g) by {
                assert((nb & g == g) == (b & g == g)) by (bit_vector)
                    requires
                        f == 1u8 || f == 2u8 || f == 4u8 || f == 8u8 || f == 16u8,
                        g == 1u8 || g == 2u8 || g == 4u8 || g == 8u8 || g == 16u8,
                        g != f,
                        on ==> nb == b | f,
                        !on ==> nb == b & !f,
                ;
            }
        }
    }

    /// The simulator's own flag set for these stages: it holds a flag bit
    /// exactly when this bitset has it, so the delay flag is never among them.
    pub fn to_apply_flags(&self) -> (r: DirectApplyFlags)
        requires
            self.wf(),
        ensures
            forall|g: u8| is_single_bit(g) ==> #[trigger] apply_flags_held(r).contains(g) == self.has(g),
            !apply_flags_held(r).contains(32),
    {
        let r = apply_flags_from_bits(self.bits);
        proof {
            let b = self.bits;
            assert(b & 32 != 32) by (bit_vector)
                requires
                    b < 32,
            ;
            assert(is_single_bit(32));
        }
        r
    }

    /// The stages that a source's settings ask for; the delay stage is never set.
    pub fn from_source(s: &PhononSource) -> (r: DirectFlags)
        ensures
            r.wf(),
            r == source_flags(*s),
            r.has(DISTANCE_ATTENUATION) == s.distance_attenuation,
            r.has(AIR_ABSORPTION) == s.air_absorption,
            r.has(DIRECTIVITY) == s.directivity,
            r.has(OCCLUSION) == s.occlusion,
            r.has(TRANSMISSION) == s.transmission,
    {
        let mut r = DirectFlags::empty();
        r.set(DISTANCE_ATTENUATION, s.distance_attenuation);
        r.set(AIR_ABSORPTION, s.air_absorption);
        r.set(OCCLUSION, s.occlusion);
        r.set(TRANSMISSION, s.transmission);
        r.set(DIRECTIVITY, s.directivity);
        proof {
            lemma_source_bits(*s);
            lemma_same_stages_same_flags(r, source_flags(*s));
        }
        r
    }
}

/// The stage bitset of a source carries exactly the stages its settings
/// enable: a disabled stage is never requested, whatever the other toggles.
pub proof fn lemma_source_bits(s: PhononSource)
    ensures
        source_flags(s).wf(),
        source_flags(s).has(DISTANCE_ATTENUATION) == s.distance_attenuation,
        source_flags(s).has(AIR_ABSORPTION) == s.air_absorption,
        source_flags(s).has(DIRECTIVITY) == s.directivity,
        source_flags(s).has(OCCLUSION) == s.occlusion,
        source_flags(s).has(TRANSMISSION) == s.transmission,
{
    let (a0, a1, a2, a3, a4) = (
        bit_if(s.distance_attenuation, 1),
        bit_if(s.air_absorption, 2),
        bit_if(s.directivity, 4),
        bit_if(s.occlusion, 8),
        bit_if(s.transmission, 16),
    );
    let b = source_bits(s);
    assert(b < 32 && (b & 1 == 1 <==> a0 == 1) && (b & 2 == 2 <==> a1 == 2) && (b & 4 == 4
        <==> a2 == 4) && (b & 8 == 8 <==> a3 == 8) && (b & 16 == 16 <==> a4 == 16))
        by (bit_vector)
        requires
            a0 == 0u8 || a0 == 1u8,
            a1 == 0u8 || a1 == 2u8,
            a2 == 0u8 || a2 == 4u8,
            a3 == 0u8 || a3 == 8u8,
            a4 == 0u8 || a4 == 16u8,
            b == (a0 + a1 + a2 + a3 + a4) as u8,
    ;
}

/// Two stage bitsets that agree on every stage are equal.
proof fn lemma_same_stages_same_flags(a: DirectFlags, b: DirectFlags)
    requires
        a.wf(),
        b.wf(),
        a.has(DISTANCE_ATTENUATION) == b.has(DISTANCE_ATTENUATION),
        a.has(AIR_ABSORPTION) == b.has(AIR_ABSORPTION),
        a.has(DIRECTIVITY) == b.has(DIRECTIVITY),
        a.has(OCCLUSION) == b.has(OCCLUSION),
        a.has(TRANSMISSION) == b.has(TRANSMISSION),
    ensures
        a == b,
{
    let (x, y) = (a.bits, b.bits);
    assert(x == y) by (bit_vector)
        requires
            x < 32,
            y < 32,
            (x & 1 == 1) == (y & 1 == 1),
            (x & 2 == 2) == (y & 2 == 2),
            (x & 4 == 4) == (y & 4 == 4),
            (x & 8 == 8) == (y & 8 == 8),
            (x & 16 == 16) == (y & 16 == 16),
    ;
}

} // verus!
