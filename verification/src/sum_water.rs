//! Water as a sum of sines: a fixed number of travelling waves.
//!
//! A wave is kept as the numbers a shader evaluates: a unit direction, a
//! frequency, an amplitude, a phase and a steepness, with a tag that selects
//! the wave function. The caller evaluates those numbers from an angle, a
//! speed and a wavelength; this module stamps the type, keeps a field of
//! waves consistent and lays the field out for the shader.
use crate::common::Color;
use crate::common::ConfigError;
use crate::common::Shading;
use crate::scalar::Scalar;
use crate::scalar::ONE_BITS;
use crate::scalar::ZERO_BITS;
use crate::value::lemma_exactly_below;
use crate::value::lemma_nearest_in_binade;
use crate::value::lemma_nearest_negated;
use crate::value::negated;
use vstd::arithmetic::power2::lemma2_to64;
use vstd::prelude::*;
use vstd::std_specs::convert::FromSpecImpl;

verus! {

/// The number of waves in a field.
pub const WAVE_COUNT: usize = 4;

/// The encoding of 2.0, the steepness of every wind wave.
pub const WIND_WAVE_STEEPNESS_BITS: u32 = 0x4000_0000;

/// The encoding of 0.5, the shortest wavelength that is drawn.
pub const WAVELENGTH_LOW_BITS: u32 = 0x3f00_0000;

/// The encoding of 2.0, the longest wavelength that is drawn.
pub const WAVELENGTH_HIGH_BITS: u32 = 0x4000_0000;

/// The encoding of minus thirty degrees in radians, the least direction angle.
pub const DIRECTION_LOW_BITS: u32 = 0xbf06_0a92;

/// The encoding of thirty degrees in radians, the greatest direction angle.
pub const DIRECTION_HIGH_BITS: u32 = 0x3f06_0a92;

/// The encoding of 0.4, the least speed that is drawn.
pub const SPEED_LOW_BITS: u32 = 0x3ecc_cccd;

/// The encoding of 0.6, the greatest speed that is drawn.
pub const SPEED_HIGH_BITS: u32 = 0x3f19_999a;

/// The encoding of 0.1, the amplitude of a wave per unit of its wavelength.
pub const AMPLITUDE_PER_WAVELENGTH_BITS: u32 = 0x3dcc_cccd;

/// The encoding of the phase of a wave of speed one and wavelength one under
/// gravity 9.81: the square root of 9.81 times two pi.
pub const UNIT_WAVE_PHASE_BITS: u32 = 0x40fb_3b51;

/// Which function a wave is evaluated with.
#[derive(Clone, Copy, Debug, PartialEq, Eq, Structural)]
pub enum WaveType {
    Sine,
    SteepSine,
}

impl WaveType {
    /// The other wave type.
    pub open spec fn spec_cycle(&self) -> WaveType {
        match self {
            WaveType::Sine => WaveType::SteepSine,
            WaveType::SteepSine => WaveType::Sine,
        }
    }

    /// The position of the type in its declaration: zero for a sine, one for
    /// a steep sine.
    pub open spec fn spec_ordinal(&self) -> u32 {
        match self {
            WaveType::Sine => 0,
            WaveType::SteepSine => 1,
        }
    }

    /// The ordinal as a binary32 number, as it is laid out for the shader.
    pub open spec fn spec_tag(&self) -> Scalar {
        match self {
            WaveType::Sine => Scalar { bits: ZERO_BITS },
            WaveType::SteepSine => Scalar { bits: ONE_BITS },
        }
    }

    /// The other wave type.
    #[verifier::when_used_as_spec(spec_cycle)]
    pub fn cycle(&self) -> (r: WaveType)
        ensures
            r == self.spec_cycle(),
    {
        match self {
            WaveType::Sine => WaveType::SteepSine,
            WaveType::SteepSine => WaveType::Sine,
        }
    }

    /// The position of the type in its declaration.
    #[verifier::when_used_as_spec(spec_ordinal)]
    pub fn ordinal(&self) -> (r: u32)
        ensures
            r == self.spec_ordinal(),
    {
        match self {
            WaveType::Sine => 0,
            WaveType::SteepSine => 1,
        }
    }

    /// The ordinal as a binary32 number.
    #[verifier::when_used_as_spec(spec_tag)]
    pub fn tag(&self) -> (r: Scalar)
        ensures
            r == self.spec_tag(),
    {
        match self {
            WaveType::Sine => Scalar::zero(),
            WaveType::SteepSine => Scalar::one(),
        }
    }
}

impl Default for WaveType {
    fn default() -> (r: WaveType)
        ensures
            r == WaveType::SteepSine,
    {
        WaveType::SteepSine
    }
}

/// A vector of two numbers.
#[derive(Clone, Copy, Debug, PartialEq, Eq, Structural)]
pub struct Vec2 {
    pub x: Scalar,
    pub y: Scalar,
}

/// A vector of three numbers.
#[derive(Clone, Copy, Debug, PartialEq, Eq, Structural)]
pub struct Vec3 {
    pub x: Scalar,
    pub y: Scalar,
    pub z: Scalar,
}

/// A three by three matrix, held by its columns.
#[derive(Clone, Copy, Debug, PartialEq, Eq, Structural)]
pub struct Mat3 {
    pub x_axis: Vec3,
    pub y_axis: Vec3,
    pub z_axis: Vec3,
}

/// An interval to draw a number from. Its upper end is never below its lower
/// end.
#[derive(Clone, Copy, Debug, PartialEq, Eq)]
pub struct SampleRange {
    low: Scalar,
    high: Scalar,
}

impl SampleRange {
    #[verifier::type_invariant]
    spec fn ordered(self) -> bool {
        !self.high.spec_lt(self.low)
    }

    /// The lower end.
    pub closed spec fn spec_low(&self) -> Scalar {
        self.low
    }

    /// The upper end.
    pub closed spec fn spec_high(&self) -> Scalar {
        self.high
    }

    /// Whether `x` lies in the interval, both ends included.
    pub open spec fn spec_contains(&self, x: Scalar) -> bool {
        self.spec_low().spec_le(x) && x.spec_le(self.spec_high())
    }

    /// The interval from `low` to `high`, refused when `high` is below `low`.
    pub fn new(low: Scalar, high: Scalar) -> (r: Result<SampleRange, ConfigError>)
        ensures
            high.spec_lt(low) <==> r is Err,
            r matches Err(e) ==> e == ConfigError::Range,
            r matches Ok(range) ==> range.spec_low() == low && range.spec_high() == high,
    {
        if high.lt(low) {
            Err(ConfigError::Range)
        } else {
            Ok(SampleRange { low, high })
        }
    }

    /// The wavelengths that are drawn: from 0.5 to 2.0, the median of one
    /// divided and multiplied by two.
    pub fn wavelength() -> (r: SampleRange)
        ensures
            r.spec_low().bits == WAVELENGTH_LOW_BITS,
            r.spec_high().bits == WAVELENGTH_HIGH_BITS,
    {
        SampleRange {
            low: Scalar::from_bits(WAVELENGTH_LOW_BITS),
            high: Scalar::from_bits(WAVELENGTH_HIGH_BITS),
        }
    }

    /// The direction angles that are drawn: thirty degrees to either side of
    /// zero, in radians.
    pub fn direction() -> (r: SampleRange)
        ensures
            r.spec_low().bits == DIRECTION_LOW_BITS,
            r.spec_high().bits == DIRECTION_HIGH_BITS,
    {
        SampleRange {
            low: Scalar::from_bits(DIRECTION_LOW_BITS),
            high: Scalar::from_bits(DIRECTION_HIGH_BITS),
        }
    }

    /// The speeds that are drawn: from 0.4 to 0.6, well above the floor of
    /// 0.01 that keeps a speed positive.
    pub fn speed() -> (r: SampleRange)
        ensures
            r.spec_low().bits == SPEED_LOW_BITS,
            r.spec_high().bits == SPEED_HIGH_BITS,
    {
        SampleRange {
            low: Scalar::from_bits(SPEED_LOW_BITS),
            high: Scalar::from_bits(SPEED_HIGH_BITS),
        }
    }

    /// The lower end.
    #[verifier::when_used_as_spec(spec_low)]
    pub fn low(&self) -> (r: Scalar)
        ensures
            r == self.spec_low(),
    {
        self.low
    }

    /// The upper end, which is not below the lower end.
    #[verifier::when_used_as_spec(spec_high)]
    pub fn high(&self) -> (r: Scalar)
        ensures
            r == self.spec_high(),
            !r.spec_lt(self.spec_low()),
    {
        proof {
            use_type_invariant(self);
        }
        self.high
    }

    /// Whether `x` lies in the interval, both ends included.
    #[verifier::when_used_as_spec(spec_contains)]
    pub fn contains(&self, x: Scalar) -> (r: bool)
        ensures
            r == self.spec_contains(x),
    {
        self.low.le(x) && x.le(self.high)
    }

}

/// What a wave is: its type and the numbers that a shader evaluates.
pub struct WaveSpecView {
    pub ty: WaveType,
    pub direction: Vec2,
    pub frequency: Scalar,
    pub amplitude: Scalar,
    pub phase: Scalar,
    pub steepness: Scalar,
}

impl WaveSpecView {
    /// The wave as the columns of a matrix: direction and frequency, then
    /// amplitude, phase and steepness, then the tag of the type and two zeros.
    pub open spec fn mat3(self) -> Mat3 {
        Mat3 {
            x_axis: Vec3 { x: self.direction.x, y: self.direction.y, z: self.frequency },
            y_axis: Vec3 { x: self.amplitude, y: self.phase, z: self.steepness },
            z_axis: Vec3 {
                x: self.ty.spec_tag(),
                y: Scalar { bits: ZERO_BITS },
                z: Scalar { bits: ZERO_BITS },
            },
        }
    }
}

/// One travelling wave.
///
/// The numbers are fixed when the wave is made. Only the type can change
/// afterwards.
#[derive(Clone, Copy, Debug, PartialEq, Eq)]
pub struct WaveSpec {
    ty: WaveType,
    direction: Vec2,
    frequency: Scalar,
    amplitude: Scalar,
    phase: Scalar,
    steepness: Scalar,
}

impl View for WaveSpec {
    type V = WaveSpecView;

    closed spec fn view(&self) -> WaveSpecView {
        WaveSpecView {
            ty: self.ty,
            direction: self.direction,
            frequency: self.frequency,
            amplitude: self.amplitude,
            phase: self.phase,
            steepness: self.steepness,
        }
    }
}

impl WaveSpec {
    /// A wave of type `ty` with the given numbers.
    ///
    /// For a wave of angle `a`, speed `s` and wavelength `l`, the caller
    /// passes the direction `(cos a, sin a)`, the frequency `2 / l` and the
    /// phase `s * sqrt(9.81 * 2 * pi / l)`.
    pub fn new(
        ty: WaveType,
        direction: Vec2,
        frequency: Scalar,
        amplitude: Scalar,
        phase: Scalar,
        steepness: Scalar,
    ) -> (r: WaveSpec)
        ensures
            r@ == (WaveSpecView { ty, direction, frequency, amplitude, phase, steepness }),
    {
        WaveSpec { ty, direction, frequency, amplitude, phase, steepness }
    }

    /// A wind wave of type `ty` from the numbers evaluated at a random draw.
    /// Its steepness is 2.0.
    pub fn random(
        ty: WaveType,
        direction: Vec2,
        frequency: Scalar,
        amplitude: Scalar,
        phase: Scalar,
    ) -> (r: WaveSpec)
        ensures
            r@ == (WaveSpecView {
                ty,
                direction,
                frequency,
                amplitude,
                phase,
                steepness: Scalar { bits: WIND_WAVE_STEEPNESS_BITS },
            }),
    {
        WaveSpec::new(
            ty,
            direction,
            frequency,
            amplitude,
            phase,
            Scalar::from_bits(WIND_WAVE_STEEPNESS_BITS),
        )
    }

    /// The type of the wave.
    pub fn ty(&self) -> (r: WaveType)
        ensures
            r == self@.ty,
    {
        self.ty
    }

    /// Changes the type of the wave and nothing else.
    pub fn set_ty(&mut self, ty: WaveType)
        ensures
            final(self)@ == (WaveSpecView { ty, ..old(self)@ }),
    {
        self.ty = ty;
    }

    /// The unit vector along which the wave travels.
    pub fn direction(&self) -> (r: Vec2)
        ensures
            r == self@.direction,
    {
        self.direction
    }

    /// The frequency: two divided by the wavelength.
    pub fn frequency(&self) -> (r: Scalar)
        ensures
            r == self@.frequency,
    {
        self.frequency
    }

    /// The amplitude.
    pub fn amplitude(&self) -> (r: Scalar)
        ensures
            r == self@.amplitude,
    {
        self.amplitude
    }

    /// The phase, which follows from speed and wavelength by the dispersion
    /// relation.
    pub fn phase(&self) -> (r: Scalar)
        ensures
            r == self@.phase,
    {
        self.phase
    }

    /// The steepness.
    pub fn steepness(&self) -> (r: Scalar)
        ensures
            r == self@.steepness,
    {
        self.steepness
    }
}

impl Default for WaveSpec {
    /// A sine wave along the first axis with angle zero and speed, amplitude,
    /// wavelength and steepness one.
    fn default() -> (r: WaveSpec)
        ensures
            r@ == (WaveSpecView {
                ty: WaveType::Sine,
                direction: Vec2 { x: Scalar { bits: ONE_BITS }, y: Scalar { bits: ZERO_BITS } },
                frequency: Scalar { bits: WAVELENGTH_HIGH_BITS },
                amplitude: Scalar { bits: ONE_BITS },
                phase: Scalar { bits: UNIT_WAVE_PHASE_BITS },
                steepness: Scalar { bits: ONE_BITS },
            }),
    {
        WaveSpec::new(
            WaveType::Sine,
            Vec2 { x: Scalar::one(), y: Scalar::zero() },
            Scalar::from_bits(WAVELENGTH_HIGH_BITS),
            Scalar::one(),
            Scalar::from_bits(UNIT_WAVE_PHASE_BITS),
            Scalar::one(),
        )
    }
}

impl From<WaveSpec> for Mat3 {
    fn from(wave: WaveSpec) -> (r: Mat3) {
        Mat3 {
            x_axis: Vec3 { x: wave.direction.x, y: wave.direction.y, z: wave.frequency },
            y_axis: Vec3 { x: wave.amplitude, y: wave.phase, z: wave.steepness },
            z_axis: Vec3 { x: wave.ty.tag(), y: Scalar::zero(), z: Scalar::zero() },
        }
    }
}

impl FromSpecImpl<WaveSpec> for Mat3 {
    open spec fn obeys_from_spec() -> bool {
        true
    }

    open spec fn from_spec(wave: WaveSpec) -> Mat3 {
        wave@.mat3()
    }
}

/// The state of the sum-of-sines method: the time, the waves and the shading.
#[derive(Clone, Copy, Debug, PartialEq, Eq)]
pub struct SumWaterMaterial {
    pub time: Scalar,
    pub waves: [WaveSpec; WAVE_COUNT],
    pub shading: Shading,
}

/// The record that the sum-of-sines shader reads, field by field in this
/// order.
#[derive(Clone, Copy, Debug, PartialEq, Eq)]
pub struct WaterMaterialUniform {
    pub time: Scalar,
    pub waves: [Mat3; WAVE_COUNT],
    pub ambient: Color,
    pub diffuse_reflectance: Color,
    pub specular_reflectance: Color,
    pub shininess: Scalar,
    pub fresnel_color: Color,
    pub fresnel_bias: Scalar,
    pub fresnel_strength: Scalar,
    pub fresnel_shininess: Scalar,
    pub tip_attenuation: Scalar,
    pub tip_color: Color,
}

impl SumWaterMaterial {
    /// The wave type of the field, which is that of its first wave.
    pub open spec fn spec_wave_type(&self) -> WaveType {
        self.waves[0]@.ty
    }

    /// Every wave of the field has the same type.
    pub open spec fn is_uniform(self) -> bool {
        forall|i: int| 0 <= i < WAVE_COUNT ==> (#[trigger] self.waves[i])@.ty == self.waves[0]@.ty
    }

    /// The waves as the shader reads them, one matrix for each.
    pub open spec fn packed_waves(self) -> Seq<Mat3> {
        Seq::new(WAVE_COUNT as nat, |i: int| self.waves[i]@.mat3())
    }

    /// Whether `r` is the record of this state: time, waves and shading, each
    /// in its place and unchanged.
    pub open spec fn packs_to(self, r: WaterMaterialUniform) -> bool {
        &&& r.time == self.time
        &&& r.waves@ == self.packed_waves()
        &&& r.ambient == self.shading.ambient
        &&& r.diffuse_reflectance == self.shading.diffuse_reflectance
        &&& r.specular_reflectance == self.shading.specular_reflectance
        &&& r.shininess == self.shading.shininess
        &&& r.fresnel_color == self.shading.fresnel.color
        &&& r.fresnel_bias == self.shading.fresnel.bias
        &&& r.fresnel_strength == self.shading.fresnel.strength
        &&& r.fresnel_shininess == self.shading.fresnel.shininess
        &&& r.tip_attenuation == self.shading.tip_attenuation
        &&& r.tip_color == self.shading.tip_color
    }

    /// A new field at time zero with the default shading. It holds the given
    /// waves, each with its type set to `wave_type`.
    pub fn random(wave_type: WaveType, waves: [WaveSpec; WAVE_COUNT]) -> (r: SumWaterMaterial)
        ensures
            r.time.bits == ZERO_BITS,
            r.shading == Shading::spec_default(),
            forall|i: int|
                0 <= i < WAVE_COUNT ==> (#[trigger] r.waves[i])@ == (WaveSpecView {
                    ty: wave_type,
                    ..waves[i]@
                }),
            r.is_uniform(),
            r.spec_wave_type() == wave_type,
    {
        let mut r = SumWaterMaterial { time: Scalar::zero(), waves, shading: Shading::default() };
        r.set_wave_type(wave_type);
        r
    }

    /// Replaces every wave by the given one, which takes the type that the
    /// field had before. Time and shading stay.
    ///
    /// In a field whose waves were all of one type, every wave keeps its type.
    pub fn randomize(&mut self, waves: [WaveSpec; WAVE_COUNT])
        ensures
            final(self).time == old(self).time,
            final(self).shading == old(self).shading,
            forall|i: int|
                0 <= i < WAVE_COUNT ==> (#[trigger] final(self).waves[i])@ == (WaveSpecView {
                    ty: old(self).spec_wave_type(),
                    ..waves[i]@
                }),
            final(self).is_uniform(),
            final(self).spec_wave_type() == old(self).spec_wave_type(),
            old(self).is_uniform() ==> forall|i: int|
                0 <= i < WAVE_COUNT ==> (#[trigger] final(self).waves[i])@.ty == old(
                    self,
                ).waves[i]@.ty,
    {
        let wave_type = self.waves[0].ty();
        self.waves = waves;
        self.set_wave_type(wave_type);
    }

    /// Sets the type of every wave and leaves its numbers, the time and the
    /// shading as they are.
    pub fn set_wave_type(&mut self, wave_type: WaveType)
        ensures
            final(self).time == old(self).time,
            final(self).shading == old(self).shading,
            forall|i: int|
                0 <= i < WAVE_COUNT ==> (#[trigger] final(self).waves[i])@ == (WaveSpecView {
                    ty: wave_type,
                    ..old(self).waves[i]@
                }),
            final(self).is_uniform(),
            final(self).spec_wave_type() == wave_type,
    {
        let mut i: usize = 0;
        while i < WAVE_COUNT
            invariant
                i <= WAVE_COUNT,
                self.time == old(self).time,
                self.shading == old(self).shading,
                forall|j: int|
                    0 <= j < i ==> (#[trigger] self.waves[j])@ == (WaveSpecView {
                        ty: wave_type,
                        ..old(self).waves[j]@
                    }),
                forall|j: int| i <= j < WAVE_COUNT ==> self.waves[j] == old(self).waves[j],
            decreases WAVE_COUNT - i,
        {
            self.waves[i].set_ty(wave_type);
            i += 1;
        }
    }

    /// The wave type of the field.
    #[verifier::when_used_as_spec(spec_wave_type)]
    pub fn wave_type(&self) -> (r: WaveType)
        ensures
            r == self.spec_wave_type(),
    {
        self.waves[0].ty()
    }

    /// The record that the shader reads.
    pub fn pack(&self) -> (r: WaterMaterialUniform)
        ensures
            self.packs_to(r),
    {
        let blank = Mat3::from(self.waves[0]);
        let mut waves: [Mat3; WAVE_COUNT] = [blank; WAVE_COUNT];
        let mut i: usize = 1;
        while i < WAVE_COUNT
            invariant
                1 <= i <= WAVE_COUNT,
                forall|j: int| 0 <= j < i ==> #[trigger] waves[j] == self.waves[j]@.mat3(),
            decreases WAVE_COUNT - i,
        {
            waves[i] = Mat3::from(self.waves[i]);
            i += 1;
        }
        assert(waves@ =~= self.packed_waves());
        WaterMaterialUniform {
            time: self.time,
            waves,
            ambient: self.shading.ambient,
            diffuse_reflectance: self.shading.diffuse_reflectance,
            specular_reflectance: self.shading.specular_reflectance,
            shininess: self.shading.shininess,
            fresnel_color: self.shading.fresnel.color,
            fresnel_bias: self.shading.fresnel.bias,
            fresnel_strength: self.shading.fresnel.strength,
            fresnel_shininess: self.shading.fresnel.shininess,
            tip_attenuation: self.shading.tip_attenuation,
            tip_color: self.shading.tip_color,
        }
    }
}

/// Packing is a function of the state: two records of one state are equal.
pub proof fn lemma_pack_deterministic(
    state: SumWaterMaterial,
    a: WaterMaterialUniform,
    b: WaterMaterialUniform,
)
    requires
        state.packs_to(a),
        state.packs_to(b),
    ensures
        a == b,
{
    assert(a.waves =~= b.waves);
}

/// The constants of wave generation stand for their numbers: each is the
/// number itself, or the binary32 number nearest to it. Thirty degrees in
/// radians are 0.5235987756 to ten places.
pub proof fn lemma_generation_constants()
    ensures
        (Scalar { bits: WIND_WAVE_STEEPNESS_BITS }).is_exactly(2, 1),
        (Scalar { bits: WAVELENGTH_LOW_BITS }).is_exactly(1, 2),
        (Scalar { bits: WAVELENGTH_HIGH_BITS }).is_exactly(2, 1),
        (Scalar { bits: DIRECTION_LOW_BITS }).is_nearest(-5235987756, 10000000000),
        (Scalar { bits: DIRECTION_HIGH_BITS }).is_nearest(5235987756, 10000000000),
        (Scalar { bits: SPEED_LOW_BITS }).is_nearest(4, 10),
        (Scalar { bits: SPEED_HIGH_BITS }).is_nearest(6, 10),
        (Scalar { bits: AMPLITUDE_PER_WAVELENGTH_BITS }).is_nearest(1, 10),
{
    lemma2_to64();
    lemma_exactly_below(Scalar { bits: WIND_WAVE_STEEPNESS_BITS }, 2, 1);
    lemma_exactly_below(Scalar { bits: WAVELENGTH_LOW_BITS }, 1, 2);
    lemma_exactly_below(Scalar { bits: WAVELENGTH_HIGH_BITS }, 2, 1);
    lemma_nearest_in_binade(negated(Scalar { bits: DIRECTION_LOW_BITS }), 5235987756, 10000000000);
    lemma_nearest_negated(negated(Scalar { bits: DIRECTION_LOW_BITS }), 5235987756, 10000000000);
    lemma_nearest_in_binade(Scalar { bits: DIRECTION_HIGH_BITS }, 5235987756, 10000000000);
    lemma_nearest_in_binade(Scalar { bits: SPEED_LOW_BITS }, 4, 10);
    lemma_nearest_in_binade(Scalar { bits: SPEED_HIGH_BITS }, 6, 10);
    lemma_nearest_in_binade(Scalar { bits: AMPLITUDE_PER_WAVELENGTH_BITS }, 1, 10);
}

} // verus!
