//! Water as layered fractional Brownian motion.
//!
//! The configuration names, for the vertex stage and for the fragment stage
//! of the shader, how many octaves are summed and how seed, frequency,
//! amplitude and speed change from one octave to the next. Nothing is drawn
//! at random and nothing is derived: the configuration is laid out as it
//! stands, with each octave count narrowed to 32 bits.
use crate::common::Color;
use crate::common::Shading;
use crate::scalar::Scalar;
use crate::scalar::ONE_BITS;
use crate::scalar::ZERO_BITS;
use crate::value::lemma_exactly_below;
use crate::value::lemma_nearest_in_binade;
use vstd::arithmetic::power2::lemma2_to64;
use vstd::prelude::*;

verus! {

/// The number of octaves that each stage starts with.
pub const DEFAULT_WAVE_COUNT: usize = 40;

/// The encoding of 1253.2131, the step of the seed from octave to octave.
pub const SEED_ITER_BITS: u32 = 0x449c_a6d2;

/// The encoding of 1.18, the growth of the frequency from octave to octave.
pub const FREQUENCY_MULT_BITS: u32 = 0x3f97_0a3d;

/// The encoding of 0.82, the decay of the amplitude from octave to octave.
pub const AMPLITUDE_MULT_BITS: u32 = 0x3f51_eb85;

/// The encoding of 2.0, the speed of the first octave.
pub const INITIAL_SPEED_BITS: u32 = 0x4000_0000;

/// The encoding of 1.07, the growth of the speed from octave to octave.
pub const SPEED_RAMP_BITS: u32 = 0x3f88_f5c3;

/// The octaves of the two shader stages.
#[derive(Clone, Copy, Debug, PartialEq, Eq, Structural)]
pub struct FbmWaterConfig {
    // Vertex stage
    pub vertex_wave_count: usize,
    pub vertex_seed: Scalar,
    pub vertex_seed_iter: Scalar,
    pub vertex_frequency: Scalar,
    pub vertex_frequency_mult: Scalar,
    pub vertex_amplitude: Scalar,
    pub vertex_amplitude_mult: Scalar,
    pub vertex_initial_speed: Scalar,
    pub vertex_speed_ramp: Scalar,
    pub vertex_drag: Scalar,
    pub vertex_height: Scalar,
    pub vertex_max_peak: Scalar,
    pub vertex_peak_offset: Scalar,
    // Fragment stage
    pub fragment_wave_count: usize,
    pub fragment_seed: Scalar,
    pub fragment_seed_iter: Scalar,
    pub fragment_frequency: Scalar,
    pub fragment_frequency_mult: Scalar,
    pub fragment_amplitude: Scalar,
    pub fragment_amplitude_mult: Scalar,
    pub fragment_initial_speed: Scalar,
    pub fragment_speed_ramp: Scalar,
    pub fragment_drag: Scalar,
    pub fragment_height: Scalar,
    pub fragment_max_peak: Scalar,
    pub fragment_peak_offset: Scalar,
}

impl FbmWaterConfig {
    /// Both stages sum at least one octave, and no more than 32 bits count.
    pub open spec fn wf(self) -> bool {
        &&& 0 < self.vertex_wave_count <= u32::MAX
        &&& 0 < self.fragment_wave_count <= u32::MAX
    }

    /// The configuration that a new material starts with: forty octaves in
    /// each stage, seed 0 stepping by 1253.2131, frequency 1 growing by 1.18,
    /// amplitude 1 decaying by 0.82, speed 2 growing by 1.07, and drag,
    /// height, peak clamp and peak offset 1.
    pub open spec fn spec_default() -> FbmWaterConfig {
        FbmWaterConfig {
            vertex_wave_count: DEFAULT_WAVE_COUNT,
            vertex_seed: Scalar { bits: ZERO_BITS },
            vertex_seed_iter: Scalar { bits: SEED_ITER_BITS },
            vertex_frequency: Scalar { bits: ONE_BITS },
            vertex_frequency_mult: Scalar { bits: FREQUENCY_MULT_BITS },
            vertex_amplitude: Scalar { bits: ONE_BITS },
            vertex_amplitude_mult: Scalar { bits: AMPLITUDE_MULT_BITS },
            vertex_initial_speed: Scalar { bits: INITIAL_SPEED_BITS },
            vertex_speed_ramp: Scalar { bits: SPEED_RAMP_BITS },
            vertex_drag: Scalar { bits: ONE_BITS },
            vertex_height: Scalar { bits: ONE_BITS },
            vertex_max_peak: Scalar { bits: ONE_BITS },
            vertex_peak_offset: Scalar { bits: ONE_BITS },
            fragment_wave_count: DEFAULT_WAVE_COUNT,
            fragment_seed: Scalar { bits: ZERO_BITS },
            fragment_seed_iter: Scalar { bits: SEED_ITER_BITS },
            fragment_frequency: Scalar { bits: ONE_BITS },
            fragment_frequency_mult: Scalar { bits: FREQUENCY_MULT_BITS },
            fragment_amplitude: Scalar { bits: ONE_BITS },
            fragment_amplitude_mult: Scalar { bits: AMPLITUDE_MULT_BITS },
            fragment_initial_speed: Scalar { bits: INITIAL_SPEED_BITS },
            fragment_speed_ramp: Scalar { bits: SPEED_RAMP_BITS },
            fragment_drag: Scalar { bits: ONE_BITS },
            fragment_height: Scalar { bits: ONE_BITS },
            fragment_max_peak: Scalar { bits: ONE_BITS },
            fragment_peak_offset: Scalar { bits: ONE_BITS },
        }
    }

    /// Whether the configuration meets [`FbmWaterConfig::wf`].
    pub fn is_valid(&self) -> (r: bool)
        ensures
            r == self.wf(),
    {
        0 < self.vertex_wave_count && self.vertex_wave_count <= 0xffff_ffff
            && 0 < self.fragment_wave_count && self.fragment_wave_count <= 0xffff_ffff
    }
}

impl Default for FbmWaterConfig {
    fn default() -> (r: FbmWaterConfig)
        ensures
            r == FbmWaterConfig::spec_default(),
            r.wf(),
    {
        FbmWaterConfig {
            vertex_wave_count: DEFAULT_WAVE_COUNT,
            vertex_seed: Scalar::from_bits(ZERO_BITS),
            vertex_seed_iter: Scalar::from_bits(SEED_ITER_BITS),
            vertex_frequency: Scalar::from_bits(ONE_BITS),
            vertex_frequency_mult: Scalar::from_bits(FREQUENCY_MULT_BITS),
            vertex_amplitude: Scalar::from_bits(ONE_BITS),
            vertex_amplitude_mult: Scalar::from_bits(AMPLITUDE_MULT_BITS),
            vertex_initial_speed: Scalar::from_bits(INITIAL_SPEED_BITS),
            vertex_speed_ramp: Scalar::from_bits(SPEED_RAMP_BITS),
            vertex_drag: Scalar::from_bits(ONE_BITS),
            vertex_height: Scalar::from_bits(ONE_BITS),
            vertex_max_peak: Scalar::from_bits(ONE_BITS),
            vertex_peak_offset: Scalar::from_bits(ONE_BITS),
            fragment_wave_count: DEFAULT_WAVE_COUNT,
            fragment_seed: Scalar::from_bits(ZERO_BITS),
            fragment_seed_iter: Scalar::from_bits(SEED_ITER_BITS),
            fragment_frequency: Scalar::from_bits(ONE_BITS),
            fragment_frequency_mult: Scalar::from_bits(FREQUENCY_MULT_BITS),
            fragment_amplitude: Scalar::from_bits(ONE_BITS),
            fragment_amplitude_mult: Scalar::from_bits(AMPLITUDE_MULT_BITS),
            fragment_initial_speed: Scalar::from_bits(INITIAL_SPEED_BITS),
            fragment_speed_ramp: Scalar::from_bits(SPEED_RAMP_BITS),
            fragment_drag: Scalar::from_bits(ONE_BITS),
            fragment_height: Scalar::from_bits(ONE_BITS),
            fragment_max_peak: Scalar::from_bits(ONE_BITS),
            fragment_peak_offset: Scalar::from_bits(ONE_BITS),
        }
    }
}

/// An octave count as the shader reads it: its low 32 bits.
pub open spec fn spec_pack_count(count: usize) -> u32 {
    (count as int % 0x1_0000_0000) as u32
}

/// An octave count as the shader reads it: its low 32 bits, which are the
/// count itself wherever it fits.
#[verifier::when_used_as_spec(spec_pack_count)]
pub fn pack_count(count: usize) -> (r: u32)
    ensures
        r == spec_pack_count(count),
        count <= u32::MAX ==> r == count,
{
    let wide: u64 = count as u64;
    (wide % 0x1_0000_0000) as u32
}

/// The state of the fractional Brownian motion method: the time, the
/// configuration and the shading.
#[derive(Clone, Copy, Debug, PartialEq, Eq, Structural)]
pub struct FbmWaterMaterial {
    pub time: Scalar,
    pub fbm_config: FbmWaterConfig,
    pub shading: Shading,
}

/// The record that the fractional Brownian motion shader reads, field by
/// field in this order.
#[derive(Clone, Copy, Debug, PartialEq, Eq, Structural)]
pub struct FbmMaterialUniform {
    pub time: Scalar,
    pub ambient: Color,
    pub diffuse_reflectance: Color,
    pub specular_reflectance: Color,
    pub shininess: Scalar,
    pub fresnel_color: Color,
    pub fresnel_bias: Scalar,
    pub fresnel_strength: Scalar,
    pub fresnel_shininess: Scalar,
    pub tip_attenuation: Scalar,
    pub tip_color: Color,
    pub vertex_wave_count: u32,
    pub vertex_seed: Scalar,
    pub vertex_seed_iter: Scalar,
    pub vertex_frequency: Scalar,
    pub vertex_frequency_mult: Scalar,
    pub vertex_amplitude: Scalar,
    pub vertex_amplitude_mult: Scalar,
    pub vertex_initial_speed: Scalar,
    pub vertex_speed_ramp: Scalar,
    pub vertex_drag: Scalar,
    pub vertex_height: Scalar,
    pub vertex_max_peak: Scalar,
    pub vertex_peak_offset: Scalar,
    pub fragment_wave_count: u32,
    pub fragment_seed: Scalar,
    pub fragment_seed_iter: Scalar,
    pub fragment_frequency: Scalar,
    pub fragment_frequency_mult: Scalar,
    pub fragment_amplitude: Scalar,
    pub fragment_amplitude_mult: Scalar,
    pub fragment_initial_speed: Scalar,
    pub fragment_speed_ramp: Scalar,
    pub fragment_drag: Scalar,
    pub fragment_height: Scalar,
    pub fragment_max_peak: Scalar,
    pub fragment_peak_offset: Scalar,
}

impl FbmWaterMaterial {
    /// The state that a new material starts with: time zero, the default
    /// configuration and the default shading.
    pub open spec fn spec_default() -> FbmWaterMaterial {
        FbmWaterMaterial {
            time: Scalar { bits: ZERO_BITS },
            fbm_config: FbmWaterConfig::spec_default(),
            shading: Shading::spec_default(),
        }
    }

    /// The record of this state: time, shading and configuration, each in its
    /// place, the two octave counts narrowed to 32 bits and all else
    /// unchanged.
    pub open spec fn packed(&self) -> FbmMaterialUniform {
        FbmMaterialUniform {
            time: self.time,
            ambient: self.shading.ambient,
            diffuse_reflectance: self.shading.diffuse_reflectance,
            specular_reflectance: self.shading.specular_reflectance,
            shininess: self.shading.shininess,
            fresnel_color: self.shading.fresnel.color,
            fresnel_bias: self.shading.fresnel.bias,
            fresnel_strength: self.shading.fresnel.strength,
            fresnel_shininess: self.shading.fresnel.shininess,
            tip_attenuation: self.shading.tip_attenuation,
            tip_color: self.shading.tip_color,
            vertex_wave_count: spec_pack_count(self.fbm_config.vertex_wave_count),
            vertex_seed: self.fbm_config.vertex_seed,
            vertex_seed_iter: self.fbm_config.vertex_seed_iter,
            vertex_frequency: self.fbm_config.vertex_frequency,
            vertex_frequency_mult: self.fbm_config.vertex_frequency_mult,
            vertex_amplitude: self.fbm_config.vertex_amplitude,
            vertex_amplitude_mult: self.fbm_config.vertex_amplitude_mult,
            vertex_initial_speed: self.fbm_config.vertex_initial_speed,
            vertex_speed_ramp: self.fbm_config.vertex_speed_ramp,
            vertex_drag: self.fbm_config.vertex_drag,
            vertex_height: self.fbm_config.vertex_height,
            vertex_max_peak: self.fbm_config.vertex_max_peak,
            vertex_peak_offset: self.fbm_config.vertex_peak_offset,
            fragment_wave_count: spec_pack_count(self.fbm_config.fragment_wave_count),
            fragment_seed: self.fbm_config.fragment_seed,
            fragment_seed_iter: self.fbm_config.fragment_seed_iter,
            fragment_frequency: self.fbm_config.fragment_frequency,
            fragment_frequency_mult: self.fbm_config.fragment_frequency_mult,
            fragment_amplitude: self.fbm_config.fragment_amplitude,
            fragment_amplitude_mult: self.fbm_config.fragment_amplitude_mult,
            fragment_initial_speed: self.fbm_config.fragment_initial_speed,
            fragment_speed_ramp: self.fbm_config.fragment_speed_ramp,
            fragment_drag: self.fbm_config.fragment_drag,
            fragment_height: self.fbm_config.fragment_height,
            fragment_max_peak: self.fbm_config.fragment_max_peak,
            fragment_peak_offset: self.fbm_config.fragment_peak_offset,
        }
    }

    /// A new material in its default state.
    pub fn new() -> (r: FbmWaterMaterial)
        ensures
            r == FbmWaterMaterial::spec_default(),
            r.fbm_config.wf(),
            r.shading.wf(),
    {
        FbmWaterMaterial::default()
    }

    /// The record that the shader reads.
    pub fn pack(&self) -> (r: FbmMaterialUniform)
        ensures
            r == self.packed(),
            self.fbm_config.wf() ==> r.vertex_wave_count == self.fbm_config.vertex_wave_count
                && r.fragment_wave_count == self.fbm_config.fragment_wave_count,
    {
        FbmMaterialUniform {
            time: self.time,
            ambient: self.shading.ambient,
            diffuse_reflectance: self.shading.diffuse_reflectance,
            specular_reflectance: self.shading.specular_reflectance,
            shininess: self.shading.shininess,
            fresnel_color: self.shading.fresnel.color,
            fresnel_bias: self.shading.fresnel.bias,
            fresnel_strength: self.shading.fresnel.strength,
            fresnel_shininess: self.shading.fresnel.shininess,
            tip_attenuation: self.shading.tip_attenuation,
            tip_color: self.shading.tip_color,
            vertex_wave_count: pack_count(self.fbm_config.vertex_wave_count),
            vertex_seed: self.fbm_config.vertex_seed,
            vertex_seed_iter: self.fbm_config.vertex_seed_iter,
            vertex_frequency: self.fbm_config.vertex_frequency,
            vertex_frequency_mult: self.fbm_config.vertex_frequency_mult,
            vertex_amplitude: self.fbm_config.vertex_amplitude,
            vertex_amplitude_mult: self.fbm_config.vertex_amplitude_mult,
            vertex_initial_speed: self.fbm_config.vertex_initial_speed,
            vertex_speed_ramp: self.fbm_config.vertex_speed_ramp,
            vertex_drag: self.fbm_config.vertex_drag,
            vertex_height: self.fbm_config.vertex_height,
            vertex_max_peak: self.fbm_config.vertex_max_peak,
            vertex_peak_offset: self.fbm_config.vertex_peak_offset,
            fragment_wave_count: pack_count(self.fbm_config.fragment_wave_count),
            fragment_seed: self.fbm_config.fragment_seed,
            fragment_seed_iter: self.fbm_config.fragment_seed_iter,
            fragment_frequency: self.fbm_config.fragment_frequency,
            fragment_frequency_mult: self.fbm_config.fragment_frequency_mult,
            fragment_amplitude: self.fbm_config.fragment_amplitude,
            fragment_amplitude_mult: self.fbm_config.fragment_amplitude_mult,
            fragment_initial_speed: self.fbm_config.fragment_initial_speed,
            fragment_speed_ramp: self.fbm_config.fragment_speed_ramp,
            fragment_drag: self.fbm_config.fragment_drag,
            fragment_height: self.fbm_config.fragment_height,
            fragment_max_peak: self.fbm_config.fragment_max_peak,
            fragment_peak_offset: self.fbm_config.fragment_peak_offset,
        }
    }
}

impl Default for FbmWaterMaterial {
    fn default() -> (r: FbmWaterMaterial)
        ensures
            r == FbmWaterMaterial::spec_default(),
            r.fbm_config.wf(),
            r.shading.wf(),
    {
        FbmWaterMaterial {
            time: Scalar::zero(),
            fbm_config: FbmWaterConfig::default(),
            shading: Shading::default(),
        }
    }
}

/// The constants of the default configuration stand for their numbers: each
/// is the number itself, or the binary32 number nearest to it.
pub proof fn lemma_fbm_constants()
    ensures
        (Scalar { bits: SEED_ITER_BITS }).is_nearest(12532131, 10000),
        (Scalar { bits: FREQUENCY_MULT_BITS }).is_nearest(118, 100),
        (Scalar { bits: AMPLITUDE_MULT_BITS }).is_nearest(82, 100),
        (Scalar { bits: INITIAL_SPEED_BITS }).is_exactly(2, 1),
        (Scalar { bits: SPEED_RAMP_BITS }).is_nearest(107, 100),
{
    lemma2_to64();
    lemma_nearest_in_binade(Scalar { bits: SEED_ITER_BITS }, 12532131, 10000);
    lemma_nearest_in_binade(Scalar { bits: FREQUENCY_MULT_BITS }, 118, 100);
    lemma_nearest_in_binade(Scalar { bits: AMPLITUDE_MULT_BITS }, 82, 100);
    lemma_exactly_below(Scalar { bits: INITIAL_SPEED_BITS }, 2, 1);
    lemma_nearest_in_binade(Scalar { bits: SPEED_RAMP_BITS }, 107, 100);
}

} // verus!
