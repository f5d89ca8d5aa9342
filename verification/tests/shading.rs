use ocean_waves::common::Color;
use ocean_waves::common::Fresnel;
use ocean_waves::common::Shading;
use ocean_waves::common::FRESNEL_BIAS_BITS;
use ocean_waves::common::FRESNEL_SHININESS_BITS;
use ocean_waves::common::FRESNEL_STRENGTH_BITS;
use ocean_waves::common::OCEAN_BLUE_BITS;
use ocean_waves::common::OCEAN_GREEN_BITS;
use ocean_waves::common::SHININESS_BITS;
use ocean_waves::common::TIP_ATTENUATION_BITS;
use ocean_waves::scalar::Scalar;

fn s(x: f32) -> Scalar {
    Scalar::from_bits(x.to_bits())
}

fn f(x: Scalar) -> f32 {
    f32::from_bits(x.to_bits())
}

#[test]
fn shading_constants_encode_their_numbers() {
    assert_eq!(OCEAN_GREEN_BITS, (43.0f32 / 255.0f32).to_bits());
    assert_eq!(OCEAN_BLUE_BITS, (77.0f32 / 255.0f32).to_bits());
    assert_eq!(SHININESS_BITS, 2.0f32.to_bits());
    assert_eq!(FRESNEL_BIAS_BITS, 0.24f32.to_bits());
    assert_eq!(FRESNEL_STRENGTH_BITS, 0.12f32.to_bits());
    assert_eq!(FRESNEL_SHININESS_BITS, 6.7f32.to_bits());
    assert_eq!(TIP_ATTENUATION_BITS, 6.0f32.to_bits());
}

#[test]
fn default_shading_has_the_documented_values() {
    let shading = Shading::default();
    let blue = [0.0f32 / 255.0, 43.0 / 255.0, 77.0 / 255.0, 255.0 / 255.0];
    for color in [shading.ambient, shading.diffuse_reflectance] {
        assert_eq!(f(color.red), blue[0]);
        assert_eq!(f(color.green), blue[1]);
        assert_eq!(f(color.blue), blue[2]);
        assert_eq!(f(color.alpha), blue[3]);
    }
    for color in [shading.specular_reflectance, shading.tip_color, shading.fresnel.color] {
        assert_eq!(color, Color::white());
        assert_eq!(f(color.red), 1.0);
        assert_eq!(f(color.green), 1.0);
        assert_eq!(f(color.blue), 1.0);
        assert_eq!(f(color.alpha), 1.0);
    }
    assert_eq!(f(shading.shininess), 2.0);
    assert_eq!(f(shading.fresnel.bias), 0.24);
    assert_eq!(f(shading.fresnel.strength), 0.12);
    assert_eq!(f(shading.fresnel.shininess), 6.7);
    assert_eq!(f(shading.tip_attenuation), 6.0);
    assert_eq!(shading.ambient, Color::deep_ocean());
    assert_eq!(shading.fresnel, Fresnel::default());
}

#[test]
fn default_shading_is_valid() {
    assert!(Shading::default().is_valid());
    assert!(Fresnel::default().is_valid());
    assert!(Color::white().is_valid());
    assert!(Color::deep_ocean().is_valid());
}

#[test]
fn color_out_of_the_unit_cube_is_invalid() {
    assert!(Color::rgba(s(0.0), s(0.5), s(1.0), s(1.0)).is_valid());
    assert!(!Color::rgba(s(1.5), s(0.5), s(1.0), s(1.0)).is_valid());
    assert!(!Color::rgba(s(0.0), s(-0.5), s(1.0), s(1.0)).is_valid());
    assert!(!Color::rgba(s(0.0), s(0.5), s(f32::NAN), s(1.0)).is_valid());
    assert!(!Color::rgba(s(0.0), s(0.5), s(1.0), s(f32::INFINITY)).is_valid());
}

#[test]
fn shading_with_a_negative_shininess_is_invalid() {
    let mut shading = Shading::default();
    shading.shininess = s(-0.5);
    assert!(!shading.is_valid());
    shading.shininess = s(0.0);
    assert!(shading.is_valid());
    shading.shininess = s(100.0);
    assert!(shading.is_valid());
    shading.tip_attenuation = s(-6.0);
    assert!(!shading.is_valid());
}

#[test]
fn fresnel_bias_and_strength_must_be_unit() {
    let mut fresnel = Fresnel::default();
    fresnel.bias = s(1.01);
    assert!(!fresnel.is_valid());
    fresnel.bias = s(1.0);
    assert!(fresnel.is_valid());
    fresnel.strength = s(-0.01);
    assert!(!fresnel.is_valid());
    fresnel.strength = s(0.0);
    fresnel.shininess = s(-1.0);
    assert!(!fresnel.is_valid());
    let mut shading = Shading::default();
    shading.fresnel = fresnel;
    assert!(!shading.is_valid());
}

#[test]
fn each_method_can_hold_a_shading_of_its_own() {
    let a = Shading::default();
    let mut b = a;
    b.shininess = s(50.0);
    assert_eq!(f(a.shininess), 2.0);
    assert_eq!(f(b.shininess), 50.0);
    assert_ne!(a, b);
}
