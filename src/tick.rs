use vstd::prelude::*;
use crate::flags::DirectFlags;
use crate::flags::lemma_source_bits;
use crate::flags::source_flags;
use crate::flags::AIR_ABSORPTION;
use crate::flags::DIRECTIVITY;
use crate::flags::DISTANCE_ATTENUATION;
use crate::flags::OCCLUSION;
use crate::flags::TRANSMISSION;
use crate::occlusion::clamped_samples;
use crate::occlusion::effective_occlusion_samples;
use crate::settings::OcclusionKind;
use crate::settings::PhononSource;

verus! {

/// What one source needs from the direct simulator and its renderer in one tick.
#[derive(Clone, Copy, Debug, PartialEq, Eq, Structural)]
pub struct SourcePlan {
    /// Stages the simulator applies.
    pub flags: DirectFlags,
    /// Read the dipole weight and power from the renderer before simulating;
    /// otherwise the source is simulated as omnidirectional.
    pub read_directivity: bool,
    pub occlusion_type: OcclusionKind,
    pub occlusion_radius_um: u32,
    /// Occlusion samples after clamping to the simulator's maximum.
    pub occlusion_samples: usize,
    /// Value of the renderer's binaural switch.
    pub binaural: bool,
}

/// The plan for a source with settings `s` under a simulator that allows at
/// most `max` occlusion samples.
pub open spec fn source_plan(s: PhononSource, max: usize) -> SourcePlan {
    SourcePlan {
        flags: source_flags(s),
        read_directivity: s.directivity,
        occlusion_type: s.occlusion_type,
        occlusion_radius_um: s.occlusion_radius_um,
        occlusion_samples: clamped_samples(s.occlusion_samples as nat, max as nat) as usize,
        binaural: s.hrtf_enable,
    }
}

/// Plans the simulation of one source.
pub fn plan_source(s: &PhononSource, max_occlusion_samples: usize) -> (r: SourcePlan)
    ensures
        r == source_plan(*s, max_occlusion_samples),
        r.flags.wf(),
        r.occlusion_samples <= max_occlusion_samples,
{
    SourcePlan {
        flags: DirectFlags::from_source(s),
        read_directivity: s.directivity,
        occlusion_type: s.occlusion_type,
        occlusion_radius_um: s.occlusion_radius_um,
        occlusion_samples: effective_occlusion_samples(s.occlusion_samples, max_occlusion_samples),
        binaural: s.hrtf_enable,
    }
}

/// A stage that a source's settings disable is not run for it, and every
/// stage they enable is; a source without directivity is simulated as
/// omnidirectional, with no read from its renderer.
pub proof fn lemma_plan_runs_enabled_stages(s: PhononSource, max: usize)
    ensures
        source_plan(s, max).flags.has(DISTANCE_ATTENUATION) == s.distance_attenuation,
        source_plan(s, max).flags.has(AIR_ABSORPTION) == s.air_absorption,
        source_plan(s, max).flags.has(DIRECTIVITY) == s.directivity,
        source_plan(s, max).flags.has(OCCLUSION) == s.occlusion,
        source_plan(s, max).flags.has(TRANSMISSION) == s.transmission,
        source_plan(s, max).read_directivity == s.directivity,
{
    lemma_source_bits(s);
}

/// A source that asks for more occlusion samples than the simulator allows
/// is planned exactly as one that asks for the maximum.
pub proof fn lemma_plan_clamps_samples(s: PhononSource, max: usize)
    requires
        s.occlusion_samples >= max,
    ensures
        source_plan(s, max) == source_plan((PhononSource { occlusion_samples: max, ..s }), max),
        source_plan(s, max).occlusion_samples == max,
{
}

/// The work of one tick, given whether a listener exists, each source's
/// settings, and whether each source's spatializer could be found.
/// `None`: no listener, so the tick is skipped. Otherwise one entry per
/// source: its plan, or `None` where its spatializer is not reachable this
/// tick and delivery to it is skipped.
pub open spec fn tick_plan(
    listener_present: bool,
    sources: Seq<PhononSource>,
    reachable: Seq<bool>,
    max: usize,
) -> Option<Seq<Option<SourcePlan>>> {
    if !listener_present {
        None
    } else {
        Some(
            Seq::new(
                sources.len(),
                |i: int|
                    if reachable[i] {
                        Some(source_plan(sources[i], max))
                    } else {
                        None
                    },
            ),
        )
    }
}

/// Plans one tick; a tick without a listener is skipped as a whole. The
/// caller commits the scene before it runs any of the planned simulations.
pub fn plan_tick(
    listener_present: bool,
    sources: &Vec<PhononSource>,
    reachable: &Vec<bool>,
    max_occlusion_samples: usize,
) -> (r: Option<Vec<Option<SourcePlan>>>)
    requires
        sources@.len() == reachable@.len(),
    ensures
        match r {
            None => tick_plan(listener_present, sources@, reachable@, max_occlusion_samples)
                is None,
            Some(v) => tick_plan(listener_present, sources@, reachable@, max_occlusion_samples)
                == Some(v@),
        },
{
    if !listener_present {
        return None;
    }
    let mut out: Vec<Option<SourcePlan>> = Vec::new();
    let mut i: usize = 0;
    while i < sources.len()
        invariant
            i <= sources@.len(),
            sources@.len() == reachable@.len(),
            out@.len() == i,
            forall|k: int|
                0 <= k < i ==> #[trigger] out@[k] == (if reachable@[k] {
                    Some(source_plan(sources@[k], max_occlusion_samples))
                } else {
                    None
                }),
        decreases sources@.len() - i,
    {
        if reachable[i] {
            out.push(Some(plan_source(&sources[i], max_occlusion_samples)));
        } else {
            out.push(None);
        }
        i = i + 1;
    }
    let ghost expected = tick_plan(listener_present, sources@, reachable@, max_occlusion_samples);
    assert(expected.unwrap() =~= out@);
    Some(out)
}

} // verus!
