//! The shading model that every wave method carries.
use crate::scalar::Scalar;
use crate::scalar::ONE_BITS;
use crate::scalar::ZERO_BITS;
use crate::value::lemma_exactly_below;
use crate::value::lemma_nearest_in_binade;
use vstd::arithmetic::power2::lemma2_to64;
use vstd::prelude::*;

verus! {

/// The encoding of 43/255, the green of the deep-ocean blue.
pub const OCEAN_GREEN_BITS: u32 = 0x3e2c_acad;

/// The encoding of 77/255, the blue of the deep-ocean blue.
pub const OCEAN_BLUE_BITS: u32 = 0x3e9a_9a9b;

/// The encoding of 2.0, the specular shininess.
pub const SHININESS_BITS: u32 = 0x4000_0000;

/// The encoding of 0.24, the Fresnel bias.
pub const FRESNEL_BIAS_BITS: u32 = 0x3e75_c28f;

/// The encoding of 0.12, the Fresnel strength.
pub const FRESNEL_STRENGTH_BITS: u32 = 0x3df5_c28f;

/// The encoding of 6.7, the Fresnel shininess.
pub const FRESNEL_SHININESS_BITS: u32 = 0x40d6_6666;

/// The encoding of 6.0, the attenuation of the foam on wave tips.
pub const TIP_ATTENUATION_BITS: u32 = 0x40c0_0000;

/// What a caller may get wrong in a configuration.
#[derive(Clone, Copy, Debug, PartialEq, Eq, Structural)]
pub enum ConfigError {
    /// The wind speed is not more than zero.
    WindSpeed,
    /// The fetch is not more than zero.
    Fetch,
    /// The upper end of a sampling range is below its lower end.
    Range,
}

/// A colour: red, green, blue and opacity.
#[derive(Clone, Copy, Debug, PartialEq, Eq, Structural)]
pub struct Color {
    pub red: Scalar,
    pub green: Scalar,
    pub blue: Scalar,
    pub alpha: Scalar,
}

impl Color {
    /// Opaque white.
    pub open spec fn spec_white() -> Color {
        Color {
            red: Scalar { bits: ONE_BITS },
            green: Scalar { bits: ONE_BITS },
            blue: Scalar { bits: ONE_BITS },
            alpha: Scalar { bits: ONE_BITS },
        }
    }

    /// The opaque deep-ocean blue: no red, 43/255 green, 77/255 blue.
    pub open spec fn spec_deep_ocean() -> Color {
        Color {
            red: Scalar { bits: ZERO_BITS },
            green: Scalar { bits: OCEAN_GREEN_BITS },
            blue: Scalar { bits: OCEAN_BLUE_BITS },
            alpha: Scalar { bits: ONE_BITS },
        }
    }

    /// Every channel lies between zero and one.
    pub open spec fn wf(self) -> bool {
        &&& self.red.spec_is_unit()
        &&& self.green.spec_is_unit()
        &&& self.blue.spec_is_unit()
        &&& self.alpha.spec_is_unit()
    }

    /// The colour with the given channels.
    pub fn rgba(red: Scalar, green: Scalar, blue: Scalar, alpha: Scalar) -> (r: Color)
        ensures
            r == (Color { red, green, blue, alpha }),
    {
        Color { red, green, blue, alpha }
    }

    /// Opaque white.
    #[verifier::when_used_as_spec(spec_white)]
    pub fn white() -> (r: Color)
        ensures
            r == Color::spec_white(),
            r.wf(),
    {
        Color { red: Scalar::one(), green: Scalar::one(), blue: Scalar::one(), alpha: Scalar::one() }
    }

    /// The opaque deep-ocean blue.
    #[verifier::when_used_as_spec(spec_deep_ocean)]
    pub fn deep_ocean() -> (r: Color)
        ensures
            r == Color::spec_deep_ocean(),
            r.wf(),
    {
        Color {
            red: Scalar::zero(),
            green: Scalar::from_bits(OCEAN_GREEN_BITS),
            blue: Scalar::from_bits(OCEAN_BLUE_BITS),
            alpha: Scalar::one(),
        }
    }

    /// Whether every channel lies between zero and one.
    pub fn is_valid(&self) -> (r: bool)
        ensures
            r == self.wf(),
    {
        self.red.is_unit() && self.green.is_unit() && self.blue.is_unit() && self.alpha.is_unit()
    }
}

/// The Fresnel term of the shading model.
#[derive(Clone, Copy, Debug, PartialEq, Eq, Structural)]
pub struct Fresnel {
    pub color: Color,
    pub bias: Scalar,
    pub strength: Scalar,
    pub shininess: Scalar,
}

impl Fresnel {
    /// The colour is valid, bias and strength lie between zero and one, and
    /// the shininess is not negative.
    pub open spec fn wf(self) -> bool {
        &&& self.color.wf()
        &&& self.bias.spec_is_unit()
        &&& self.strength.spec_is_unit()
        &&& self.shininess.spec_is_non_negative()
    }

    /// The Fresnel term that a new shading model starts with: white, bias
    /// 0.24, strength 0.12, shininess 6.7.
    pub open spec fn spec_default() -> Fresnel {
        Fresnel {
            color: Color::spec_white(),
            bias: Scalar { bits: FRESNEL_BIAS_BITS },
            strength: Scalar { bits: FRESNEL_STRENGTH_BITS },
            shininess: Scalar { bits: FRESNEL_SHININESS_BITS },
        }
    }

    /// Whether the term meets [`Fresnel::wf`].
    pub fn is_valid(&self) -> (r: bool)
        ensures
            r == self.wf(),
    {
        self.color.is_valid() && self.bias.is_unit() && self.strength.is_unit()
            && self.shininess.is_non_negative()
    }
}

impl Default for Fresnel {
    fn default() -> (r: Fresnel)
        ensures
            r == Fresnel::spec_default(),
            r.wf(),
    {
        Fresnel {
            color: Color::white(),
            bias: Scalar::from_bits(FRESNEL_BIAS_BITS),
            strength: Scalar::from_bits(FRESNEL_STRENGTH_BITS),
            shininess: Scalar::from_bits(FRESNEL_SHININESS_BITS),
        }
    }
}

/// Reflectance, Fresnel and foam parameters of a water surface.
///
/// Each wave method holds a shading model of its own.
#[derive(Clone, Copy, Debug, PartialEq, Eq, Structural)]
pub struct Shading {
    pub ambient: Color,
    pub diffuse_reflectance: Color,
    pub specular_reflectance: Color,
    pub shininess: Scalar,
    pub fresnel: Fresnel,
    pub tip_color: Color,
    pub tip_attenuation: Scalar,
}

impl Shading {
    /// Every colour is valid, the Fresnel term is valid, and shininess and
    /// tip attenuation are not negative.
    pub open spec fn wf(self) -> bool {
        &&& self.ambient.wf()
        &&& self.diffuse_reflectance.wf()
        &&& self.specular_reflectance.wf()
        &&& self.shininess.spec_is_non_negative()
        &&& self.fresnel.wf()
        &&& self.tip_color.wf()
        &&& self.tip_attenuation.spec_is_non_negative()
    }

    /// The shading model that a new material starts with: deep-ocean blue
    /// ambient and diffuse colours, white specular and tip colours,
    /// shininess 2.0, tip attenuation 6.0 and the default Fresnel term.
    pub open spec fn spec_default() -> Shading {
        Shading {
            ambient: Color::spec_deep_ocean(),
            diffuse_reflectance: Color::spec_deep_ocean(),
            specular_reflectance: Color::spec_white(),
            shininess: Scalar { bits: SHININESS_BITS },
            fresnel: Fresnel::spec_default(),
            tip_color: Color::spec_white(),
            tip_attenuation: Scalar { bits: TIP_ATTENUATION_BITS },
        }
    }

    /// Whether the model meets [`Shading::wf`].
    pub fn is_valid(&self) -> (r: bool)
        ensures
            r == self.wf(),
    {
        self.ambient.is_valid() && self.diffuse_reflectance.is_valid()
            && self.specular_reflectance.is_valid() && self.shininess.is_non_negative()
            && self.fresnel.is_valid() && self.tip_color.is_valid()
            && self.tip_attenuation.is_non_negative()
    }
}

impl Default for Shading {
    fn default() -> (r: Shading)
        ensures
            r == Shading::spec_default(),
            r.wf(),
    {
        Shading {
            ambient: Color::deep_ocean(),
            diffuse_reflectance: Color::deep_ocean(),
            specular_reflectance: Color::white(),
            shininess: Scalar::from_bits(SHININESS_BITS),
            fresnel: Fresnel::default(),
            tip_color: Color::white(),
            tip_attenuation: Scalar::from_bits(TIP_ATTENUATION_BITS),
        }
    }
}

/// The constants of the default shading stand for their numbers: each is the
/// number itself, or the binary32 number nearest to it.
pub proof fn lemma_shading_constants()
    ensures
        (Scalar { bits: OCEAN_GREEN_BITS }).is_nearest(43, 255),
        (Scalar { bits: OCEAN_BLUE_BITS }).is_nearest(77, 255),
        (Scalar { bits: SHININESS_BITS }).is_exactly(2, 1),
        (Scalar { bits: FRESNEL_BIAS_BITS }).is_nearest(24, 100),
        (Scalar { bits: FRESNEL_STRENGTH_BITS }).is_nearest(12, 100),
        (Scalar { bits: FRESNEL_SHININESS_BITS }).is_nearest(67, 10),
        (Scalar { bits: TIP_ATTENUATION_BITS }).is_exactly(6, 1),
{
    lemma2_to64();
    lemma_nearest_in_binade(Scalar { bits: OCEAN_GREEN_BITS }, 43, 255);
    lemma_nearest_in_binade(Scalar { bits: OCEAN_BLUE_BITS }, 77, 255);
    lemma_exactly_below(Scalar { bits: SHININESS_BITS }, 2, 1);
    lemma_nearest_in_binade(Scalar { bits: FRESNEL_BIAS_BITS }, 24, 100);
    lemma_nearest_in_binade(Scalar { bits: FRESNEL_STRENGTH_BITS }, 12, 100);
    lemma_nearest_in_binade(Scalar { bits: FRESNEL_SHININESS_BITS }, 67, 10);
    lemma_exactly_below(Scalar { bits: TIP_ATTENUATION_BITS }, 6, 1);
}

} // verus!
