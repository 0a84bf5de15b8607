use planet_shading::color::Color;
use planet_shading::linalg::{Mat4, Vec3};
use planet_shading::noise::{ConstantNoise, NoiseSource};
use planet_shading::shaders::fragment_shader;
use planet_shading::types::{CelestialBody, Fragment, Uniforms};

fn uniforms(body: CelestialBody, noise_value: i64, time: i64) -> Uniforms<ConstantNoise> {
    Uniforms {
        model_matrix: Mat4::identity(),
        view_matrix: Mat4::identity(),
        projection_matrix: Mat4::identity(),
        viewport_matrix: Mat4::identity(),
        time,
        noise: ConstantNoise::new(noise_value),
        current_body: body,
    }
}

fn fragment(x: i64, y: i64, z: i64, intensity: i64) -> Fragment {
    Fragment::new(Vec3::new(x, y, z), intensity)
}

#[test]
fn constant_noise_clamps_to_the_unit_range() {
    let n = ConstantNoise::new(5000);
    assert_eq!(n.get_noise_2d(1, 2), 1000);
    assert_eq!(n.get_noise_3d(1, 2, 3), 1000);
    let m = ConstantNoise::new(-5000);
    assert_eq!(m.get_noise_3d(0, 0, 0), -1000);
    let z = ConstantNoise::new(0);
    assert_eq!(z.get_noise_2d(9, 9), 0);
}

#[test]
fn rocky_planet_zero_noise_is_the_desert_color() {
    // Zero craters and terrain select the desert base; the dust overlay
    // factor is zero, so the output is the desert palette color exactly.
    let u = uniforms(CelestialBody::RockyPlanet, 0, 0);
    let f = fragment(300, -400, 500, 1000);
    assert_eq!(fragment_shader(&f, &u), Color::new(180, 80, 20));
}

#[test]
fn sun_zero_noise_is_the_core_color() {
    // Zero plasma keeps the blend at the core color and zero corona keeps
    // the brightness multiplier at one.
    let u = uniforms(CelestialBody::Sun, 0, 7);
    let f = fragment(123, 456, 789, 1000);
    assert_eq!(fragment_shader(&f, &u), Color::new(255, 200, 0));
}

#[test]
fn ringed_planet_zero_noise_is_half_the_edge_color() {
    // A zero ring pattern takes the edge branch and a zero density makes
    // the alpha 0.5, so the output is the edge color scaled by half.
    let u = uniforms(CelestialBody::RingedPlanet, 0, 0);
    let f = fragment(100, 200, 300, 1000);
    assert_eq!(fragment_shader(&f, &u), Color::new(50, 40, 30));
}

#[test]
fn moon_zero_noise_is_the_base_gray() {
    let u = uniforms(CelestialBody::Moon, 0, 0);
    let f = fragment(10, 20, 30, 1000);
    assert_eq!(fragment_shader(&f, &u), Color::new(180, 180, 180));
}

#[test]
fn ocean_zero_noise_is_the_deep_ocean_color() {
    let u = uniforms(CelestialBody::OceanPlanet, 0, 0);
    let f = fragment(10, 20, 30, 1000);
    assert_eq!(fragment_shader(&f, &u), Color::new(0, 51, 102));
}

#[test]
fn gas_giant_zero_noise_is_the_third_band() {
    let u = uniforms(CelestialBody::GasGiant, 0, 0);
    let f = fragment(10, 20, 30, 1000);
    assert_eq!(fragment_shader(&f, &u), Color::new(180, 130, 90));
}

#[test]
fn cloudy_zero_noise_is_the_ocean_surface() {
    let u = uniforms(CelestialBody::CloudyPlanet, 0, 0);
    let f = fragment(10, 20, 30, 1000);
    assert_eq!(fragment_shader(&f, &u), Color::new(30, 100, 200));
}

#[test]
fn cloudy_past_threshold_blends_toward_the_cloud() {
    // Sample 400: land base (the surface sample passes 0.2) and a cloud
    // overlay weight of (0.4 - 0.3) * 2 = 0.2.
    let u = uniforms(CelestialBody::CloudyPlanet, 400, 0);
    let f = fragment(10, 20, 30, 1000);
    assert_eq!(fragment_shader(&f, &u), Color::new(91, 147, 91));
}

#[test]
fn cloudy_overlay_weight_grows_with_the_sample() {
    let f = fragment(10, 20, 30, 1000);
    let mut previous = fragment_shader(&f, &uniforms(CelestialBody::CloudyPlanet, 301, 0));
    for sample in [350, 400, 500, 650, 800, 1000] {
        let c = fragment_shader(&f, &uniforms(CelestialBody::CloudyPlanet, sample, 0));
        assert!(c.r >= previous.r && c.g >= previous.g && c.b >= previous.b);
        previous = c;
    }
}

#[test]
fn rocky_planet_crater_branch() {
    // Sample 0.8 passes the crater threshold 0.7; the dust overlay then
    // blends the crater color toward the dust color by |0.8| * 0.3 = 0.24.
    let u = uniforms(CelestialBody::RockyPlanet, 800, 0);
    let f = fragment(300, -400, 500, 1000);
    assert_eq!(fragment_shader(&f, &u), Color::new(139, 74, 31));
}

#[test]
fn moon_crater_branch() {
    // Craters at 0.8 blend the base gray toward the crater gray by
    // (0.8 - 0.7) * 2 = 0.2; dust then blends by |0.8| * 0.2 = 0.16; the
    // surface-detail overlay needs more than 0.8 and stays off.
    let u = uniforms(CelestialBody::Moon, 800, 0);
    let f = fragment(10, 20, 30, 1000);
    assert_eq!(fragment_shader(&f, &u), Color::new(162, 162, 162));
}

#[test]
fn ocean_reef_band() {
    // Depth 0.4 falls in the middle band and blends toward the reef color
    // by currents * 0.5 = 0.2; waves at 0.4 leave the foam overlay off.
    let u = uniforms(CelestialBody::OceanPlanet, 400, 0);
    let f = fragment(10, 20, 30, 1000);
    assert_eq!(fragment_shader(&f, &u), Color::new(12, 85, 123));
}

#[test]
fn gas_giant_storm_is_gated_to_one_quadrant() {
    // With both position components positive the storm overlay is active;
    // mirroring x out of the quadrant falls back to the first band.
    let u = uniforms(CelestialBody::GasGiant, 600, 0);
    let inside = fragment(600, 700, 100, 1000);
    assert_eq!(fragment_shader(&inside, &u), Color::new(242, 111, 85));
    let outside = fragment(-600, 700, 100, 1000);
    assert_eq!(fragment_shader(&outside, &u), Color::new(242, 208, 172));
}

#[test]
fn colorful_planet_zero_noise_at_origin() {
    // At the origin with zero noise and time, both sinusoidal patterns sit
    // at 0.5: no accent fires and the ring takes its low branch.
    let u = uniforms(CelestialBody::ColorPlanet, 0, 0);
    let f = fragment(0, 0, 0, 1000);
    assert_eq!(fragment_shader(&f, &u), Color::new(245, 134, 153));
}

#[test]
fn ice_planet_zero_noise_at_origin_is_surface_ice() {
    let u = uniforms(CelestialBody::IcePlanet, 0, 0);
    let f = fragment(0, 0, 0, 1000);
    assert_eq!(fragment_shader(&f, &u), Color::new(220, 240, 255));
}

#[test]
fn nature_planet_origin_lies_in_a_river() {
    // At the origin the river pattern is 0, far below the 0.1 cutoff, and
    // the water blend factor saturates at 1: pure bioluminescent water.
    let u = uniforms(CelestialBody::NaturePlanet, 0, 0);
    let f = fragment(0, 0, 0, 1000);
    assert_eq!(fragment_shader(&f, &u), Color::new(64, 224, 208));
}

#[test]
fn aurora_planet_zero_noise_at_origin() {
    // Only the wave overlay fires at the origin (its mixed pattern is 0.8)
    // and the emissive factor 1.2 clamps the blue channel.
    let u = uniforms(CelestialBody::AuroraPlanet, 0, 0);
    let f = fragment(0, 0, 0, 1000);
    assert_eq!(fragment_shader(&f, &u), Color::new(196, 168, 255));
}

#[test]
fn intensity_above_one_clamps_channels() {
    let u = uniforms(CelestialBody::Sun, 0, 0);
    let f = fragment(123, 456, 789, 2000);
    assert_eq!(fragment_shader(&f, &u), Color::new(255, 255, 0));
}

#[test]
fn zero_intensity_shades_black() {
    let u = uniforms(CelestialBody::RockyPlanet, 0, 0);
    let f = fragment(300, -400, 500, 0);
    assert_eq!(fragment_shader(&f, &u), Color::new(0, 0, 0));
}

#[test]
fn every_body_kind_shades_arbitrary_inputs() {
    let bodies = [
        CelestialBody::Sun,
        CelestialBody::RockyPlanet,
        CelestialBody::GasGiant,
        CelestialBody::CloudyPlanet,
        CelestialBody::RingedPlanet,
        CelestialBody::IcePlanet,
        CelestialBody::ColorPlanet,
        CelestialBody::Moon,
        CelestialBody::OceanPlanet,
        CelestialBody::AuroraPlanet,
        CelestialBody::NaturePlanet,
    ];
    for body in bodies {
        for (noise_value, time, intensity) in
            [(777, 42, 1500), (-777, 123456789, 1000), (0, i64::MAX, 0), (1000, -5, 1200)]
        {
            let u = uniforms(body, noise_value, time);
            let f = fragment(500, 600, -700, intensity);
            let _ = fragment_shader(&f, &u);
        }
    }
}

#[test]
fn shading_twice_is_bit_identical() {
    let bodies = [
        CelestialBody::IcePlanet,
        CelestialBody::AuroraPlanet,
        CelestialBody::NaturePlanet,
        CelestialBody::ColorPlanet,
    ];
    for body in bodies {
        let u = uniforms(body, 321, 12345);
        let f = fragment(1100, -700, 419, 997);
        let first = fragment_shader(&f, &u);
        let second = fragment_shader(&f, &u);
        assert_eq!(first, second);
    }
}
