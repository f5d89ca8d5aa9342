//! Water from a JONSWAP spectrum.
//!
//! The settings name wind and fetch; the record for the shader holds the
//! spectral constants that follow from them. This module decides which
//! settings are valid, limits the swell, and puts every term in its place.
//! The three terms that take arithmetic on the numbers (the wind angle in
//! radians, the JONSWAP alpha and the peak angular frequency) come from the
//! caller as [`JonswapTerms`].
use crate::common::Color;
use crate::common::ConfigError;
use crate::common::Shading;
use crate::scalar::Scalar;
use crate::scalar::ONE_BITS;
use crate::scalar::ZERO_BITS;
use crate::value::lemma_exactly_above;
use crate::value::lemma_exactly_below;
use crate::value::lemma_nearest_in_binade;
use vstd::arithmetic::power2::lemma2_to64;
use vstd::arithmetic::power2::pow2;
use vstd::prelude::*;

verus! {

/// The encoding of 9.81, the acceleration of gravity.
pub const GRAVITY_BITS: u32 = 0x411c_f5c3;

/// The encoding of 0.01, the least swell.
pub const SWELL_MIN_BITS: u32 = 0x3c23_d70a;

/// The encoding of 1.0, the greatest swell.
pub const SWELL_MAX_BITS: u32 = 0x3f80_0000;

/// The encoding of 0.5, the scale that new settings start with.
pub const DEFAULT_SCALE_BITS: u32 = 0x3f00_0000;

/// The encoding of 20.0, the wind speed that new settings start with.
pub const DEFAULT_WIND_SPEED_BITS: u32 = 0x41a0_0000;

/// The encoding of 22.0, the wind direction in degrees that new settings
/// start with.
pub const DEFAULT_WIND_DIRECTION_BITS: u32 = 0x41b0_0000;

/// The encoding of 100000000.0, the fetch that new settings start with: a
/// fetch without bound, in effect.
pub const DEFAULT_FETCH_BITS: u32 = 0x4cbe_bc20;

/// The encoding of 0.42, the swell that new settings start with.
pub const DEFAULT_SWELL_BITS: u32 = 0x3ed7_0a3d;

/// What a caller sets of a spectrum.
#[derive(Clone, Copy, Debug, PartialEq, Eq, Structural)]
pub struct SpectrumSettings {
    pub scale: Scalar,
    pub wind_speed: Scalar,
    pub wind_direction: Scalar,
    pub fetch: Scalar,
    pub spread_blend: Scalar,
    pub swell: Scalar,
    pub peak_enhancement: Scalar,
    pub short_waves_fade: Scalar,
}

impl SpectrumSettings {
    /// Wind speed and fetch are both more than zero, so that alpha and peak
    /// frequency, which divide by them, are defined.
    pub open spec fn wf(self) -> bool {
        self.wind_speed.spec_is_positive() && self.fetch.spec_is_positive()
    }

    /// What is wrong with the settings, if anything: the wind speed first,
    /// then the fetch.
    pub open spec fn spec_validate(&self) -> Result<(), ConfigError> {
        if !self.wind_speed.spec_is_positive() {
            Err(ConfigError::WindSpeed)
        } else if !self.fetch.spec_is_positive() {
            Err(ConfigError::Fetch)
        } else {
            Ok(())
        }
    }

    /// The settings that a spectrum starts with: scale 0.5, wind of speed 20
    /// from 22 degrees, fetch 100000000, swell 0.42, and spread blend, peak
    /// enhancement and short-waves fade 1.
    pub open spec fn spec_default() -> SpectrumSettings {
        SpectrumSettings {
            scale: Scalar { bits: DEFAULT_SCALE_BITS },
            wind_speed: Scalar { bits: DEFAULT_WIND_SPEED_BITS },
            wind_direction: Scalar { bits: DEFAULT_WIND_DIRECTION_BITS },
            fetch: Scalar { bits: DEFAULT_FETCH_BITS },
            spread_blend: Scalar { bits: ONE_BITS },
            swell: Scalar { bits: DEFAULT_SWELL_BITS },
            peak_enhancement: Scalar { bits: ONE_BITS },
            short_waves_fade: Scalar { bits: ONE_BITS },
        }
    }

    /// Accepts the settings where wind speed and fetch are both more than
    /// zero, and names the first of the two that is not.
    #[verifier::when_used_as_spec(spec_validate)]
    pub fn validate(&self) -> (r: Result<(), ConfigError>)
        ensures
            r == self.spec_validate(),
            r is Ok <==> self.wf(),
    {
        if !self.wind_speed.is_positive() {
            Err(ConfigError::WindSpeed)
        } else if !self.fetch.is_positive() {
            Err(ConfigError::Fetch)
        } else {
            Ok(())
        }
    }
}

impl Default for SpectrumSettings {
    fn default() -> (r: SpectrumSettings)
        ensures
            r == SpectrumSettings::spec_default(),
            r.wf(),
    {
        SpectrumSettings {
            scale: Scalar::from_bits(DEFAULT_SCALE_BITS),
            wind_speed: Scalar::from_bits(DEFAULT_WIND_SPEED_BITS),
            wind_direction: Scalar::from_bits(DEFAULT_WIND_DIRECTION_BITS),
            fetch: Scalar::from_bits(DEFAULT_FETCH_BITS),
            spread_blend: Scalar::one(),
            swell: Scalar::from_bits(DEFAULT_SWELL_BITS),
            peak_enhancement: Scalar::one(),
            short_waves_fade: Scalar::one(),
        }
    }
}

/// The terms of a spectrum that the caller evaluates from valid settings.
///
/// With `g` for gravity, `u` for the wind speed and `f` for the fetch:
/// `angle` is the wind direction times pi over 180, `alpha` is
/// `0.076 * (g * f / u^2)^(-0.22)`, and `peak_omega` is
/// `22 * (u * f / g^2)^(-0.33)`.
#[derive(Clone, Copy, Debug, PartialEq, Eq, Structural)]
pub struct JonswapTerms {
    pub angle: Scalar,
    pub alpha: Scalar,
    pub peak_omega: Scalar,
}

/// The spectral constants that the shader reads.
#[derive(Clone, Copy, Debug, PartialEq, Eq, Structural)]
pub struct SpectrumSettingsUniform {
    pub scale: Scalar,
    pub angle: Scalar,
    pub spread_blend: Scalar,
    pub swell: Scalar,
    pub alpha: Scalar,
    pub peak_omega: Scalar,
    pub gamma: Scalar,
    pub short_waves_fade: Scalar,
}

impl SpectrumSettingsUniform {
    /// The swell as it is laid out: limited to the interval from 0.01 to 1.
    pub open spec fn spec_swell(swell: Scalar) -> Scalar {
        swell.spec_clamp(Scalar { bits: SWELL_MIN_BITS }, Scalar { bits: SWELL_MAX_BITS })
    }

    /// The constants of the given settings and terms: the three terms, the
    /// limited swell, and scale, spread blend, peak enhancement and
    /// short-waves fade as they are.
    pub open spec fn spec_derive(
        settings: SpectrumSettings,
        terms: JonswapTerms,
    ) -> SpectrumSettingsUniform {
        SpectrumSettingsUniform {
            scale: settings.scale,
            angle: terms.angle,
            spread_blend: settings.spread_blend,
            swell: Self::spec_swell(settings.swell),
            alpha: terms.alpha,
            peak_omega: terms.peak_omega,
            gamma: settings.peak_enhancement,
            short_waves_fade: settings.short_waves_fade,
        }
    }

    /// The constants of valid settings and their terms; the error of
    /// [`SpectrumSettings::validate`] for others.
    ///
    /// The swell of the result lies between 0.01 and 1 whatever number the
    /// settings hold for it.
    pub fn from_spectrum_settings(settings: &SpectrumSettings, terms: &JonswapTerms) -> (r: Result<
        SpectrumSettingsUniform,
        ConfigError,
    >)
        ensures
            r is Ok <==> settings.wf(),
            r matches Err(e) ==> settings.spec_validate() == Err::<(), ConfigError>(e),
            r matches Ok(u) ==> u == Self::spec_derive(*settings, *terms),
            r matches Ok(u) ==> !settings.swell.spec_is_nan() ==> (Scalar {
                bits: SWELL_MIN_BITS,
            }).spec_le(u.swell) && u.swell.spec_le(Scalar { bits: SWELL_MAX_BITS }),
    {
        match settings.validate() {
            Err(e) => Err(e),
            Ok(_) => Ok(
                SpectrumSettingsUniform {
                    scale: settings.scale,
                    angle: terms.angle,
                    spread_blend: settings.spread_blend,
                    swell: settings.swell.clamp(
                        Scalar::from_bits(SWELL_MIN_BITS),
                        Scalar::from_bits(SWELL_MAX_BITS),
                    ),
                    alpha: terms.alpha,
                    peak_omega: terms.peak_omega,
                    gamma: settings.peak_enhancement,
                    short_waves_fade: settings.short_waves_fade,
                },
            ),
        }
    }
}

/// The state of the spectrum method: the time and the shading.
#[derive(Clone, Copy, Debug, PartialEq, Eq, Structural)]
pub struct FftWaterMaterial {
    pub time: Scalar,
    pub shading: Shading,
}

/// The record that the spectrum shader reads, field by field in this order.
#[derive(Clone, Copy, Debug, PartialEq, Eq, Structural)]
pub struct WaterMaterialUniform {
    pub time: Scalar,
    pub ambient: Color,
    pub diffuse_reflectance: Color,
    pub specular_reflectance: Color,
    pub shininess: Scalar,
    pub fresnel_color: Color,
    pub fresnel_bias: Scalar,
    pub fresnel_strength: Scalar,
    pub fresnel_shininess: Scalar,
    pub tip_attenuation: Scalar,
    pub tip_color: Color,
}

impl FftWaterMaterial {
    /// The state that a new material starts with: time zero and the default
    /// shading.
    pub open spec fn spec_default() -> FftWaterMaterial {
        FftWaterMaterial { time: Scalar { bits: ZERO_BITS }, shading: Shading::spec_default() }
    }

    /// The record of this state: time and shading, each in its place and
    /// unchanged.
    pub open spec fn packed(&self) -> WaterMaterialUniform {
        WaterMaterialUniform {
            time: self.time,
            ambient: self.shading.ambient,
            diffuse_reflectance: self.shading.diffuse_reflectance,
            specular_reflectance: self.shading.specular_reflectance,
            shininess: self.shading.shininess,
            fresnel_color: self.shading.fresnel.color,
            fresnel_bias: self.shading.fresnel.bias,
            fresnel_strength: self.shading.fresnel.strength,
            fresnel_shininess: self.shading.fresnel.shininess,
            tip_attenuation: self.shading.tip_attenuation,
            tip_color: self.shading.tip_color,
        }
    }

    /// The record that the shader reads.
    #[verifier::when_used_as_spec(packed)]
    pub fn pack(&self) -> (r: WaterMaterialUniform)
        ensures
            r == self.packed(),
    {
        WaterMaterialUniform {
            time: self.time,
            ambient: self.shading.ambient,
            diffuse_reflectance: self.shading.diffuse_reflectance,
            specular_reflectance: self.shading.specular_reflectance,
            shininess: self.shading.shininess,
            fresnel_color: self.shading.fresnel.color,
            fresnel_bias: self.shading.fresnel.bias,
            fresnel_strength: self.shading.fresnel.strength,
            fresnel_shininess: self.shading.fresnel.shininess,
            tip_attenuation: self.shading.tip_attenuation,
            tip_color: self.shading.tip_color,
        }
    }
}

impl Default for FftWaterMaterial {
    fn default() -> (r: FftWaterMaterial)
        ensures
            r == FftWaterMaterial::spec_default(),
            r.shading.wf(),
    {
        FftWaterMaterial { time: Scalar::zero(), shading: Shading::default() }
    }
}

/// The constants of the spectrum stand for their numbers: each is the number
/// itself, or the binary32 number nearest to it.
pub proof fn lemma_spectrum_constants()
    ensures
        (Scalar { bits: GRAVITY_BITS }).is_nearest(981, 100),
        (Scalar { bits: SWELL_MIN_BITS }).is_nearest(1, 100),
        (Scalar { bits: SWELL_MAX_BITS }).is_exactly(1, 1),
        (Scalar { bits: DEFAULT_SCALE_BITS }).is_exactly(1, 2),
        (Scalar { bits: DEFAULT_WIND_SPEED_BITS }).is_exactly(20, 1),
        (Scalar { bits: DEFAULT_WIND_DIRECTION_BITS }).is_exactly(22, 1),
        (Scalar { bits: DEFAULT_FETCH_BITS }).is_exactly(100000000, 1),
        (Scalar { bits: DEFAULT_SWELL_BITS }).is_nearest(42, 100),
{
    lemma2_to64();
    lemma_nearest_in_binade(Scalar { bits: GRAVITY_BITS }, 981, 100);
    lemma_nearest_in_binade(Scalar { bits: SWELL_MIN_BITS }, 1, 100);
    lemma_exactly_below(Scalar { bits: SWELL_MAX_BITS }, 1, 1);
    lemma_exactly_below(Scalar { bits: DEFAULT_SCALE_BITS }, 1, 2);
    lemma_exactly_below(Scalar { bits: DEFAULT_WIND_SPEED_BITS }, 20, 1);
    lemma_exactly_below(Scalar { bits: DEFAULT_WIND_DIRECTION_BITS }, 22, 1);
    let fetch = Scalar { bits: DEFAULT_FETCH_BITS };
    assert(fetch.exponent_field() == 153 && fetch.significand() == 12500000);
    assert(fetch.significand() * pow2(3) * 1 == 100000000) by (nonlinear_arith)
        requires
            fetch.significand() == 12500000,
            pow2(3) == 8,
    ;
    lemma_exactly_above(fetch, 100000000, 1);
    lemma_nearest_in_binade(Scalar { bits: DEFAULT_SWELL_BITS }, 42, 100);
}

} // verus!
