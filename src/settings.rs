use vstd::prelude::*;

verus! {

/// Largest number of volumetric occlusion samples a plugin allows by default.
pub const DEFAULT_MAX_OCCLUSION_SAMPLES: usize = 512;

/// Occlusion samples a source takes by default.
pub const DEFAULT_OCCLUSION_SAMPLES: usize = 64;

/// Default radius of a volumetric source, in micrometres (one metre).
pub const DEFAULT_OCCLUSION_RADIUS_UM: u32 = 1000000;

/// Plugin-wide configuration, read once when the simulator is built.
pub struct PhononPlugin {
    /// Attach default source settings to every audio source that has none.
    pub auto_add_phonon_sources: bool,
    /// Upper bound on the occlusion samples any single source may request.
    pub max_occlusion_samples: usize,
}

impl Default for PhononPlugin {
    fn default() -> (r: Self)
        ensures
            r.auto_add_phonon_sources,
            r.max_occlusion_samples == DEFAULT_MAX_OCCLUSION_SAMPLES,
    {
        PhononPlugin {
            auto_add_phonon_sources: true,
            max_occlusion_samples: DEFAULT_MAX_OCCLUSION_SAMPLES,
        }
    }
}

/// How occlusion of the direct path is estimated.
#[derive(Clone, Copy, Debug, PartialEq, Eq, Structural)]
pub enum OcclusionKind {
    /// One ray from source to listener: fully blocked or fully open.
    Raycast,
    /// Rays from points sampled inside a sphere around the source; the
    /// result is the unblocked fraction.
    Volumetric,
}

/// Per-emitter toggles of the direct-sound simulation.
#[derive(Clone, Copy, Debug, PartialEq, Eq, Structural)]
pub struct PhononSource {
    pub distance_attenuation: bool,
    pub air_absorption: bool,
    pub occlusion: bool,
    pub occlusion_type: OcclusionKind,
    /// Radius of the source sphere sampled by volumetric occlusion, in micrometres.
    pub occlusion_radius_um: u32,
    /// Occlusion samples requested for volumetric occlusion; the simulator
    /// takes at most its configured maximum.
    pub occlusion_samples: usize,
    /// Let occluding surfaces pass sound through according to their material.
    pub transmission: bool,
    pub directivity: bool,
    /// Binaural (HRTF) rendering of the direct path.
    pub hrtf_enable: bool,
}

impl Default for PhononSource {
    fn default() -> (r: Self)
        ensures
            r.distance_attenuation,
            r.air_absorption,
            r.occlusion,
            r.occlusion_type == OcclusionKind::Volumetric,
            r.occlusion_radius_um == DEFAULT_OCCLUSION_RADIUS_UM,
            r.occlusion_samples == DEFAULT_OCCLUSION_SAMPLES,
            r.transmission,
            r.directivity,
            r.hrtf_enable,
    {
        PhononSource {
            distance_attenuation: true,
            air_absorption: true,
            occlusion: true,
            occlusion_type: OcclusionKind::Volumetric,
            occlusion_radius_um: DEFAULT_OCCLUSION_RADIUS_UM,
            occlusion_samples: DEFAULT_OCCLUSION_SAMPLES,
            transmission: true,
            directivity: true,
            hrtf_enable: true,
        }
    }
}

} // verus!
