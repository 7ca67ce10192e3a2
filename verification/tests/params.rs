use vendek::params::{
    ParamOverrides, RuntimeParams, DENSITY_BITS, MAX_STEPS, MEMBRANE_GLOW_BITS,
    MEMBRANE_THICKNESS_BITS, STEP_SIZE_BITS, VOLUME_MAX_BITS, VOLUME_MIN_BITS,
};
use vendek::scalar::Scalar;

fn s(x: f32) -> Scalar {
    Scalar::from_bits(x.to_bits())
}

#[test]
fn default_encodings_are_those_of_the_documented_numbers() {
    assert_eq!(f32::from_bits(STEP_SIZE_BITS), 0.15);
    assert_eq!(f32::from_bits(MEMBRANE_THICKNESS_BITS), 0.4);
    assert_eq!(f32::from_bits(MEMBRANE_GLOW_BITS), 0.5);
    assert_eq!(f32::from_bits(DENSITY_BITS), 1.0);
    assert_eq!(f32::from_bits(VOLUME_MIN_BITS), -12.0);
    assert_eq!(f32::from_bits(VOLUME_MAX_BITS), 12.0);
    assert_eq!(MAX_STEPS, 128);
}

#[test]
fn defaults_are_the_documented_ones() {
    let p = RuntimeParams::default();
    assert_eq!(f32::from_bits(p.membrane_thickness.bits), 0.4);
    assert_eq!(f32::from_bits(p.membrane_glow.bits), 0.5);
    assert_eq!(f32::from_bits(p.step_size.bits), 0.15);
    assert_eq!(f32::from_bits(p.density.bits), 1.0);
    assert_eq!(p.max_steps, 128);
    assert!(p.enable_coupling);
    assert_eq!(p.palette, 0);
}

#[test]
fn a_silent_source_yields_the_defaults() {
    let p = RuntimeParams::from_overrides(&ParamOverrides::none());
    let d = RuntimeParams::default();
    assert_eq!(p.membrane_thickness, d.membrane_thickness);
    assert_eq!(p.membrane_glow, d.membrane_glow);
    assert_eq!(p.step_size, d.step_size);
    assert_eq!(p.density, d.density);
    assert_eq!(p.max_steps, d.max_steps);
    assert_eq!(p.enable_coupling, d.enable_coupling);
    assert_eq!(p.palette, d.palette);
}

#[test]
fn each_override_replaces_its_default_only() {
    let mut o = ParamOverrides::none();
    o.step_size = Some(s(0.05));
    o.max_steps = Some(64);
    o.enable_coupling = Some(false);
    let p = RuntimeParams::from_overrides(&o);
    assert_eq!(f32::from_bits(p.step_size.bits), 0.05);
    assert_eq!(p.max_steps, 64);
    assert!(!p.enable_coupling);
    assert_eq!(f32::from_bits(p.membrane_thickness.bits), 0.4);
    assert_eq!(f32::from_bits(p.membrane_glow.bits), 0.5);
    assert_eq!(f32::from_bits(p.density.bits), 1.0);
    assert_eq!(p.palette, 0);

    let all = ParamOverrides {
        membrane_thickness: Some(s(0.8)),
        membrane_glow: Some(s(0.9)),
        step_size: Some(s(0.3)),
        density: Some(s(2.0)),
        max_steps: Some(256),
        enable_coupling: Some(true),
        palette: Some(2),
    };
    let p = RuntimeParams::from_overrides(&all);
    assert_eq!(f32::from_bits(p.membrane_thickness.bits), 0.8);
    assert_eq!(f32::from_bits(p.membrane_glow.bits), 0.9);
    assert_eq!(f32::from_bits(p.step_size.bits), 0.3);
    assert_eq!(f32::from_bits(p.density.bits), 2.0);
    assert_eq!(p.max_steps, 256);
    assert!(p.enable_coupling);
    assert_eq!(p.palette, 2);
}

#[test]
fn the_record_carries_the_fixed_box_and_the_tunables() {
    let mut p = RuntimeParams::default();
    p.palette = 5;
    p.max_steps = 77;
    let r = p.to_raymarch_params();
    for k in 0..3 {
        assert_eq!(f32::from_bits(r.volume_min[k].bits), -12.0);
        assert_eq!(f32::from_bits(r.volume_max[k].bits), 12.0);
    }
    assert_eq!(r.max_steps, 77);
    assert_eq!(f32::from_bits(r.step_size.bits), 0.15);
    assert_eq!(f32::from_bits(r.membrane_thickness.bits), 0.4);
    assert_eq!(f32::from_bits(r.membrane_glow.bits), 0.5);
    assert_eq!(f32::from_bits(r.density_multiplier.bits), 1.0);
    assert_eq!(f32::from_bits(r.enable_coupling.bits), 1.0);
    assert_eq!(r.palette, 5);
}

#[test]
fn the_coupling_switch_is_encoded_as_a_scalar() {
    let mut p = RuntimeParams::default();
    p.enable_coupling = false;
    assert_eq!(f32::from_bits(p.to_raymarch_params().enable_coupling.bits), 0.0);
    p.enable_coupling = true;
    assert_eq!(f32::from_bits(p.to_raymarch_params().enable_coupling.bits), 1.0);
}
