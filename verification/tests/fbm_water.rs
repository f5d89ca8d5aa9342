use ocean_waves::common::Shading;
use ocean_waves::fbm_water::pack_count;
use ocean_waves::fbm_water::FbmWaterConfig;
use ocean_waves::fbm_water::FbmWaterMaterial;
use ocean_waves::fbm_water::AMPLITUDE_MULT_BITS;
use ocean_waves::fbm_water::DEFAULT_WAVE_COUNT;
use ocean_waves::fbm_water::FREQUENCY_MULT_BITS;
use ocean_waves::fbm_water::INITIAL_SPEED_BITS;
use ocean_waves::fbm_water::SEED_ITER_BITS;
use ocean_waves::fbm_water::SPEED_RAMP_BITS;
use ocean_waves::scalar::Scalar;

fn s(x: f32) -> Scalar {
    Scalar::from_bits(x.to_bits())
}

fn f(x: Scalar) -> f32 {
    f32::from_bits(x.to_bits())
}

#[test]
fn fbm_constants_encode_their_numbers() {
    assert_eq!(DEFAULT_WAVE_COUNT, 40);
    assert_eq!(SEED_ITER_BITS, 1253.2131f32.to_bits());
    assert_eq!(FREQUENCY_MULT_BITS, 1.18f32.to_bits());
    assert_eq!(AMPLITUDE_MULT_BITS, 0.82f32.to_bits());
    assert_eq!(INITIAL_SPEED_BITS, 2.0f32.to_bits());
    assert_eq!(SPEED_RAMP_BITS, 1.07f32.to_bits());
}

#[test]
fn default_fbm_config_has_forty_waves_per_stage() {
    let c = FbmWaterConfig::default();
    assert_eq!(c.vertex_wave_count, 40);
    assert_eq!(c.fragment_wave_count, 40);
    assert_eq!(f(c.vertex_seed_iter), 1253.2131);
}

#[test]
fn default_fbm_config_has_the_documented_series() {
    let c = FbmWaterConfig::default();
    assert_eq!(f(c.vertex_seed), 0.0);
    assert_eq!(f(c.vertex_seed_iter), 1253.2131);
    assert_eq!(f(c.vertex_frequency), 1.0);
    assert_eq!(f(c.vertex_frequency_mult), 1.18);
    assert_eq!(f(c.vertex_amplitude), 1.0);
    assert_eq!(f(c.vertex_amplitude_mult), 0.82);
    assert_eq!(f(c.vertex_initial_speed), 2.0);
    assert_eq!(f(c.vertex_speed_ramp), 1.07);
    assert_eq!(f(c.vertex_drag), 1.0);
    assert_eq!(f(c.vertex_height), 1.0);
    assert_eq!(f(c.vertex_max_peak), 1.0);
    assert_eq!(f(c.vertex_peak_offset), 1.0);
}

#[test]
fn default_fbm_stages_mirror_each_other() {
    let c = FbmWaterConfig::default();
    assert_eq!(c.vertex_wave_count, c.fragment_wave_count);
    assert_eq!(c.vertex_seed, c.fragment_seed);
    assert_eq!(c.vertex_seed_iter, c.fragment_seed_iter);
    assert_eq!(c.vertex_frequency, c.fragment_frequency);
    assert_eq!(c.vertex_frequency_mult, c.fragment_frequency_mult);
    assert_eq!(c.vertex_amplitude, c.fragment_amplitude);
    assert_eq!(c.vertex_amplitude_mult, c.fragment_amplitude_mult);
    assert_eq!(c.vertex_initial_speed, c.fragment_initial_speed);
    assert_eq!(c.vertex_speed_ramp, c.fragment_speed_ramp);
    assert_eq!(c.vertex_drag, c.fragment_drag);
    assert_eq!(c.vertex_height, c.fragment_height);
    assert_eq!(c.vertex_max_peak, c.fragment_max_peak);
    assert_eq!(c.vertex_peak_offset, c.fragment_peak_offset);
}

#[test]
fn fbm_config_validity_is_about_the_counts() {
    let mut c = FbmWaterConfig::default();
    assert!(c.is_valid());
    c.vertex_wave_count = 0;
    assert!(!c.is_valid());
    c.vertex_wave_count = 1;
    assert!(c.is_valid());
    c.fragment_wave_count = 0;
    assert!(!c.is_valid());
    c.fragment_wave_count = u32::MAX as usize;
    assert!(c.is_valid());
    c.vertex_frequency_mult = s(7.5);
    assert!(c.is_valid());
}

#[test]
fn pack_count_keeps_the_low_32_bits() {
    assert_eq!(pack_count(0), 0);
    assert_eq!(pack_count(40), 40);
    assert_eq!(pack_count(u32::MAX as usize), u32::MAX);
    assert_eq!(pack_count(usize::MAX), usize::MAX as u32);
    assert_eq!(pack_count(usize::MAX - 5), (usize::MAX - 5) as u32);
}

#[test]
fn new_fbm_material_is_the_default() {
    let m = FbmWaterMaterial::new();
    assert_eq!(m, FbmWaterMaterial::default());
    assert_eq!(f(m.time), 0.0);
    assert_eq!(m.fbm_config, FbmWaterConfig::default());
    assert_eq!(m.shading, Shading::default());
}

#[test]
fn fbm_pack_lays_out_every_field() {
    let mut m = FbmWaterMaterial::new();
    m.time = s(8.5);
    m.shading.shininess = s(11.0);
    m.fbm_config.vertex_wave_count = 12;
    m.fbm_config.fragment_wave_count = 34;
    m.fbm_config.vertex_seed = s(3.0);
    m.fbm_config.fragment_seed = s(4.0);
    m.fbm_config.fragment_peak_offset = s(1.75);
    let r = m.pack();
    assert_eq!(f(r.time), 8.5);
    assert_eq!(r.ambient, m.shading.ambient);
    assert_eq!(r.diffuse_reflectance, m.shading.diffuse_reflectance);
    assert_eq!(r.specular_reflectance, m.shading.specular_reflectance);
    assert_eq!(f(r.shininess), 11.0);
    assert_eq!(r.fresnel_color, m.shading.fresnel.color);
    assert_eq!(f(r.fresnel_bias), 0.24);
    assert_eq!(f(r.fresnel_strength), 0.12);
    assert_eq!(f(r.fresnel_shininess), 6.7);
    assert_eq!(f(r.tip_attenuation), 6.0);
    assert_eq!(r.tip_color, m.shading.tip_color);
    assert_eq!(r.vertex_wave_count, 12);
    assert_eq!(f(r.vertex_seed), 3.0);
    assert_eq!(f(r.vertex_seed_iter), 1253.2131);
    assert_eq!(f(r.vertex_frequency), 1.0);
    assert_eq!(f(r.vertex_frequency_mult), 1.18);
    assert_eq!(f(r.vertex_amplitude), 1.0);
    assert_eq!(f(r.vertex_amplitude_mult), 0.82);
    assert_eq!(f(r.vertex_initial_speed), 2.0);
    assert_eq!(f(r.vertex_speed_ramp), 1.07);
    assert_eq!(f(r.vertex_drag), 1.0);
    assert_eq!(f(r.vertex_height), 1.0);
    assert_eq!(f(r.vertex_max_peak), 1.0);
    assert_eq!(f(r.vertex_peak_offset), 1.0);
    assert_eq!(r.fragment_wave_count, 34);
    assert_eq!(f(r.fragment_seed), 4.0);
    assert_eq!(f(r.fragment_seed_iter), 1253.2131);
    assert_eq!(f(r.fragment_frequency), 1.0);
    assert_eq!(f(r.fragment_frequency_mult), 1.18);
    assert_eq!(f(r.fragment_amplitude), 1.0);
    assert_eq!(f(r.fragment_amplitude_mult), 0.82);
    assert_eq!(f(r.fragment_initial_speed), 2.0);
    assert_eq!(f(r.fragment_speed_ramp), 1.07);
    assert_eq!(f(r.fragment_drag), 1.0);
    assert_eq!(f(r.fragment_height), 1.0);
    assert_eq!(f(r.fragment_max_peak), 1.0);
    assert_eq!(f(r.fragment_peak_offset), 1.75);
}

#[test]
fn fbm_pack_tells_the_stages_apart() {
    let mut m = FbmWaterMaterial::new();
    m.fbm_config.vertex_frequency = s(0.25);
    m.fbm_config.fragment_frequency = s(1.75);
    m.fbm_config.vertex_drag = s(0.5);
    m.fbm_config.fragment_height = s(1.5);
    let r = m.pack();
    assert_eq!(f(r.vertex_frequency), 0.25);
    assert_eq!(f(r.fragment_frequency), 1.75);
    assert_eq!(f(r.vertex_drag), 0.5);
    assert_eq!(f(r.fragment_drag), 1.0);
    assert_eq!(f(r.vertex_height), 1.0);
    assert_eq!(f(r.fragment_height), 1.5);
}

#[test]
fn fbm_pack_twice_gives_the_same_record() {
    let mut m = FbmWaterMaterial::new();
    m.time = s(2.0);
    assert_eq!(m.pack(), m.pack());
}
