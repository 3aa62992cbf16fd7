use bevy_phonon::flags::{
    DirectFlags, AIR_ABSORPTION, DIRECTIVITY, DISTANCE_ATTENUATION, OCCLUSION, TRANSMISSION,
};
use bevy_phonon::occlusion::effective_occlusion_samples;
use bevy_phonon::settings::{
    OcclusionKind, PhononPlugin, PhononSource, DEFAULT_MAX_OCCLUSION_SAMPLES,
};
use bevy_phonon::spatializer::{find_in_groups, find_spatializer, find_stage, SPATIALIZER_NAME};
use bevy_phonon::tick::{plan_source, plan_tick};
use phonon::effects::direct::DirectApplyFlags;

fn source_with(bits: u8) -> PhononSource {
    PhononSource {
        distance_attenuation: bits & 1 != 0,
        air_absorption: bits & 2 != 0,
        directivity: bits & 4 != 0,
        occlusion: bits & 8 != 0,
        transmission: bits & 16 != 0,
        ..PhononSource::default()
    }
}

fn names(list: &[&str]) -> Vec<String> {
    list.iter().map(|s| s.to_string()).collect()
}

#[test]
fn plugin_defaults() {
    let p = PhononPlugin::default();
    assert!(p.auto_add_phonon_sources);
    assert_eq!(p.max_occlusion_samples, 512);
}

#[test]
fn source_defaults() {
    let s = PhononSource::default();
    assert!(s.distance_attenuation && s.air_absorption && s.occlusion);
    assert!(s.transmission && s.directivity && s.hrtf_enable);
    assert_eq!(s.occlusion_type, OcclusionKind::Volumetric);
    assert_eq!(s.occlusion_radius_um, 1_000_000);
    assert_eq!(s.occlusion_samples, 64);
}

#[test]
fn flags_follow_every_toggle_combination() {
    for bits in 0u8..32 {
        let f = DirectFlags::from_source(&source_with(bits));
        assert_eq!(f.bits, bits);
        assert_eq!(f.contains(DISTANCE_ATTENUATION), bits & 1 != 0);
        assert_eq!(f.contains(AIR_ABSORPTION), bits & 2 != 0);
        assert_eq!(f.contains(DIRECTIVITY), bits & 4 != 0);
        assert_eq!(f.contains(OCCLUSION), bits & 8 != 0);
        assert_eq!(f.contains(TRANSMISSION), bits & 16 != 0);
    }
}

#[test]
fn disabling_occlusion_clears_only_its_bit() {
    let on = DirectFlags::from_source(&PhononSource::default());
    let off = DirectFlags::from_source(&PhononSource { occlusion: false, ..PhononSource::default() });
    assert_eq!(on.bits, 31);
    assert_eq!(off.bits, 31 - 8);
    assert!(!off.contains(OCCLUSION));
}

#[test]
fn set_and_clear_a_stage() {
    let mut f = DirectFlags::empty();
    assert_eq!(f.bits, 0);
    f.set(TRANSMISSION, true);
    f.set(AIR_ABSORPTION, true);
    assert_eq!(f.bits, 18);
    f.set(TRANSMISSION, false);
    assert_eq!(f.bits, 2);
    f.set(AIR_ABSORPTION, true);
    assert_eq!(f.bits, 2);
}

#[test]
fn samples_above_max_are_clamped() {
    let max = DEFAULT_MAX_OCCLUSION_SAMPLES;
    assert_eq!(effective_occlusion_samples(max + 50, max), max);
    assert_eq!(effective_occlusion_samples(max + 50, max), effective_occlusion_samples(max, max));
    assert_eq!(effective_occlusion_samples(64, max), 64);
    assert_eq!(effective_occlusion_samples(0, max), 0);
    assert_eq!(effective_occlusion_samples(7, 0), 0);
}

#[test]
fn plan_clamps_requested_samples() {
    let s = PhononSource { occlusion_samples: 150, ..PhononSource::default() };
    let p = plan_source(&s, 100);
    assert_eq!(p.occlusion_samples, 100);
    assert_eq!(p, plan_source(&PhononSource { occlusion_samples: 100, ..s }, 100));
}

#[test]
fn plan_without_directivity_reads_nothing() {
    let s = PhononSource { directivity: false, hrtf_enable: false, ..PhononSource::default() };
    let p = plan_source(&s, 512);
    assert!(!p.read_directivity);
    assert!(!p.binaural);
    assert!(!p.flags.contains(DIRECTIVITY));
    assert_eq!(p.flags.bits, 27);
    assert_eq!(p.occlusion_type, OcclusionKind::Volumetric);
    assert_eq!(p.occlusion_radius_um, 1_000_000);
}

#[test]
fn spatializer_among_master_stages() {
    let target = SPATIALIZER_NAME.to_string();
    let levels = vec![
        vec![names(&["Fader", "Phonon Spatializer", "Phonon Spatializer"])],
        vec![names(&["Phonon Spatializer"])],
    ];
    assert_eq!(find_spatializer(&levels, &target), Some((0, 0, 1)));
}

#[test]
fn spatializer_in_a_sub_group() {
    let target = SPATIALIZER_NAME.to_string();
    let levels = vec![
        vec![names(&["Fader", "Lowpass"])],
        vec![names(&[]), names(&["Fader"]), names(&["Echo", "Phonon Spatializer"]),
            names(&["Phonon Spatializer"])],
    ];
    assert_eq!(find_spatializer(&levels, &target), Some((1, 2, 1)));
}

#[test]
fn spatializer_only_in_a_nested_group() {
    let target = SPATIALIZER_NAME.to_string();
    let levels = vec![
        vec![names(&["Fader"])],
        vec![names(&["Echo"]), names(&[])],
        vec![names(&["Lowpass"]), names(&["Reverb", "Phonon Spatializer"])],
        vec![names(&["Phonon Spatializer"])],
    ];
    assert_eq!(find_spatializer(&levels, &target), Some((2, 1, 1)));
}

#[test]
fn shallower_match_wins_over_earlier_deeper_group() {
    let target = SPATIALIZER_NAME.to_string();
    let levels = vec![
        vec![names(&["Fader"])],
        vec![names(&["Echo"]), names(&["Phonon Spatializer"])],
        vec![names(&["Phonon Spatializer"])],
    ];
    assert_eq!(find_spatializer(&levels, &target), Some((1, 1, 0)));
}

#[test]
fn spatializer_absent() {
    let target = SPATIALIZER_NAME.to_string();
    let levels = vec![
        vec![names(&["Fader", "phonon spatializer"])],
        vec![names(&["Phonon Spatializer 2"])],
        vec![names(&[]), names(&["Echo"])],
    ];
    assert_eq!(find_spatializer(&levels, &target), None);
    assert_eq!(find_spatializer(&Vec::new(), &target), None);
    assert_eq!(find_in_groups(&vec![names(&["a"]), names(&["b", "a"])], &"a".to_string()), Some((0, 0)));
    assert_eq!(find_in_groups(&Vec::new(), &target), None);
    assert_eq!(find_stage(&names(&["a", "b", "b"]), &"b".to_string()), Some(1));
}

#[test]
fn tick_without_listener_is_skipped() {
    let sources = vec![PhononSource::default()];
    assert_eq!(plan_tick(false, &sources, &vec![true], 512), None);
}

#[test]
fn tick_skips_unreachable_spatializers() {
    let quiet = PhononSource { occlusion: false, occlusion_samples: 900, ..PhononSource::default() };
    let sources = vec![PhononSource::default(), quiet, PhononSource::default()];
    let plan = plan_tick(true, &sources, &vec![true, true, false], 512).unwrap();
    assert_eq!(plan.len(), 3);
    assert_eq!(plan[0], Some(plan_source(&PhononSource::default(), 512)));
    let second = plan[1].unwrap();
    assert!(!second.flags.contains(OCCLUSION));
    assert_eq!(second.occlusion_samples, 512);
    assert_eq!(plan[2], None);
    assert_eq!(plan_tick(true, &Vec::new(), &Vec::new(), 512), Some(Vec::new()));
}

#[test]
fn simulator_flags_carry_the_planned_stages() {
    let s = PhononSource { air_absorption: false, transmission: false, ..PhononSource::default() };
    let f = DirectFlags::from_source(&s).to_apply_flags();
    assert_eq!(f.bits(), 13);
    assert!(f.contains(DirectApplyFlags::DistanceAttenuation));
    assert!(f.contains(DirectApplyFlags::Directivity));
    assert!(f.contains(DirectApplyFlags::Occlusion));
    assert!(!f.contains(DirectApplyFlags::AirAbsorption));
    assert!(!f.contains(DirectApplyFlags::Transmission));
    assert!(!f.contains(DirectApplyFlags::Delay));
    assert!(DirectFlags::empty().to_apply_flags().is_empty());
}

#[test]
fn plan_keeps_raycast_settings() {
    let s = PhononSource {
        occlusion_type: OcclusionKind::Raycast,
        occlusion_radius_um: 250,
        occlusion_samples: 0,
        ..PhononSource::default()
    };
    let p = plan_source(&s, 512);
    assert_eq!(p.occlusion_type, OcclusionKind::Raycast);
    assert_eq!(p.occlusion_radius_um, 250);
    assert_eq!(p.occlusion_samples, 0);
    assert!(p.read_directivity && p.binaural);
    assert_eq!(p.flags.bits, 31);
}
