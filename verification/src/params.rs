//! Tunables of the volume march, their defaults, and how a frame's
//! parameter record is made from them.

use crate::records::RaymarchParams;
use crate::scalar::{Scalar, ONE_BITS};
use vstd::prelude::*;

verus! {

/// Default bound on the steps along one ray.
pub const MAX_STEPS: u32 = 128;

/// Encoding of the default step length, `0.15`.
pub const STEP_SIZE_BITS: u32 = 0x3E19_999A;

/// Encoding of the default membrane thickness, `0.4`.
pub const MEMBRANE_THICKNESS_BITS: u32 = 0x3ECC_CCCD;

/// Encoding of the default membrane glow, `0.5`.
pub const MEMBRANE_GLOW_BITS: u32 = 0x3F00_0000;

/// Encoding of the default density multiplier, `1.0`.
pub const DENSITY_BITS: u32 = ONE_BITS;

/// Encoding of `-12.0`, each coordinate of the volume's lower corner.
pub const VOLUME_MIN_BITS: u32 = 0xC140_0000;

/// Encoding of `12.0`, each coordinate of the volume's upper corner.
pub const VOLUME_MAX_BITS: u32 = 0x4140_0000;

/// Parameters that can be adjusted while the program runs.
#[derive(Clone, Copy, Debug)]
pub struct RuntimeParams {
    pub membrane_thickness: Scalar,
    pub membrane_glow: Scalar,
    pub step_size: Scalar,
    pub density: Scalar,
    pub max_steps: u32,
    pub enable_coupling: bool,
    pub palette: u32,
}

/// What a settings source supplied for one frame; `None` where it was silent.
#[derive(Clone, Copy, Debug)]
pub struct ParamOverrides {
    pub membrane_thickness: Option<Scalar>,
    pub membrane_glow: Option<Scalar>,
    pub step_size: Option<Scalar>,
    pub density: Option<Scalar>,
    pub max_steps: Option<u32>,
    pub enable_coupling: Option<bool>,
    pub palette: Option<u32>,
}

/// `chosen` if there is one, else `fallback`.
pub open spec fn or_default<T>(chosen: Option<T>, fallback: T) -> T {
    match chosen {
        Some(value) => value,
        None => fallback,
    }
}

/// `chosen` if there is one, else `fallback`.
fn pick<T: Copy>(chosen: Option<T>, fallback: T) -> (value: T)
    ensures
        value == or_default(chosen, fallback),
{
    match chosen {
        Some(value) => value,
        None => fallback,
    }
}

impl RuntimeParams {
    /// The documented defaults.
    pub open spec fn defaults() -> RuntimeParams {
        RuntimeParams {
            membrane_thickness: Scalar { bits: MEMBRANE_THICKNESS_BITS },
            membrane_glow: Scalar { bits: MEMBRANE_GLOW_BITS },
            step_size: Scalar { bits: STEP_SIZE_BITS },
            density: Scalar { bits: DENSITY_BITS },
            max_steps: MAX_STEPS,
            enable_coupling: true,
            palette: 0,
        }
    }

    /// The defaults, each replaced where `overrides` names a value.
    pub open spec fn resolved(overrides: ParamOverrides) -> RuntimeParams {
        let base = Self::defaults();
        RuntimeParams {
            membrane_thickness: or_default(overrides.membrane_thickness, base.membrane_thickness),
            membrane_glow: or_default(overrides.membrane_glow, base.membrane_glow),
            step_size: or_default(overrides.step_size, base.step_size),
            density: or_default(overrides.density, base.density),
            max_steps: or_default(overrides.max_steps, base.max_steps),
            enable_coupling: or_default(overrides.enable_coupling, base.enable_coupling),
            palette: or_default(overrides.palette, base.palette),
        }
    }

    /// The parameter record of a frame run with these tunables: the fixed
    /// volume box, the tunables, and the coupling switch as a scalar.
    pub open spec fn record(self) -> RaymarchParams {
        RaymarchParams {
            volume_min: [
                Scalar { bits: VOLUME_MIN_BITS },
                Scalar { bits: VOLUME_MIN_BITS },
                Scalar { bits: VOLUME_MIN_BITS },
            ],
            volume_max: [
                Scalar { bits: VOLUME_MAX_BITS },
                Scalar { bits: VOLUME_MAX_BITS },
                Scalar { bits: VOLUME_MAX_BITS },
            ],
            max_steps: self.max_steps,
            step_size: self.step_size,
            membrane_thickness: self.membrane_thickness,
            membrane_glow: self.membrane_glow,
            density_multiplier: self.density,
            enable_coupling: Scalar {
                bits: if self.enable_coupling {
                    ONE_BITS
                } else {
                    0
                },
            },
            palette: self.palette,
        }
    }

    /// Settles every tunable: the value the source supplied, or its default.
    pub fn from_overrides(overrides: &ParamOverrides) -> (params: RuntimeParams)
        ensures
            params == Self::resolved(*overrides),
    {
        let base = RuntimeParams::default();
        RuntimeParams {
            membrane_thickness: pick(overrides.membrane_thickness, base.membrane_thickness),
            membrane_glow: pick(overrides.membrane_glow, base.membrane_glow),
            step_size: pick(overrides.step_size, base.step_size),
            density: pick(overrides.density, base.density),
            max_steps: pick(overrides.max_steps, base.max_steps),
            enable_coupling: pick(overrides.enable_coupling, base.enable_coupling),
            palette: pick(overrides.palette, base.palette),
        }
    }

    /// Packs the tunables with the fixed volume box into a frame's record.
    pub fn to_raymarch_params(&self) -> (record: RaymarchParams)
        ensures
            record == self.record(),
    {
        let low = Scalar::from_bits(VOLUME_MIN_BITS);
        let high = Scalar::from_bits(VOLUME_MAX_BITS);
        let record = RaymarchParams {
            volume_min: [low, low, low],
            volume_max: [high, high, high],
            max_steps: self.max_steps,
            step_size: self.step_size,
            membrane_thickness: self.membrane_thickness,
            membrane_glow: self.membrane_glow,
            density_multiplier: self.density,
            enable_coupling: Scalar::from_flag(self.enable_coupling),
            palette: self.palette,
        };
        assert(record.volume_min@ =~= self.record().volume_min@);
        assert(record.volume_max@ =~= self.record().volume_max@);
        record
    }
}

impl Default for RuntimeParams {
    fn default() -> (params: RuntimeParams)
        ensures
            params == RuntimeParams::defaults(),
    {
        RuntimeParams {
            membrane_thickness: Scalar::from_bits(MEMBRANE_THICKNESS_BITS),
            membrane_glow: Scalar::from_bits(MEMBRANE_GLOW_BITS),
            step_size: Scalar::from_bits(STEP_SIZE_BITS),
            density: Scalar::from_bits(DENSITY_BITS),
            max_steps: MAX_STEPS,
            enable_coupling: true,
            palette: 0,
        }
    }
}

impl ParamOverrides {
    /// A source that is silent on every tunable.
    pub fn none() -> (overrides: ParamOverrides)
        ensures
            RuntimeParams::resolved(overrides) == RuntimeParams::defaults(),
            overrides == (ParamOverrides {
                membrane_thickness: None,
                membrane_glow: None,
                step_size: None,
                density: None,
                max_steps: None,
                enable_coupling: None,
                palette: None,
            }),
    {
        ParamOverrides {
            membrane_thickness: None,
            membrane_glow: None,
            step_size: None,
            density: None,
            max_steps: None,
            enable_coupling: None,
            palette: None,
        }
    }
}

} // verus!
