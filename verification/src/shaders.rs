//! The surface shader library and its dispatcher.
//!
//! Every body shader follows one shape: sample the noise field at
//! coordinates built from the fragment's surface position and a body-scaled
//! time, combine the samples into pattern scalars, pick a base color by a
//! blend or a threshold ladder, stack threshold-gated overlays, and scale
//! by the fragment intensity. Each executable shader is pinned exactly to a
//! spec mirror over the noise field's spec functions, so shading is a pure,
//! deterministic function of the fragment, the uniforms and the field:
//! calling a shader twice on equal inputs yields the identical color.

use vstd::prelude::*;
use crate::color::{Color, spec_lerp, spec_scale};
use crate::fixed::{
    spec_fx_add, spec_fx_sub, spec_fx_mul, spec_fx_abs, spec_sat_mul, fx_add, fx_sub, fx_mul,
    fx_abs, sat_mul,
};
use crate::trig::{
    spec_fx_sin, spec_fx_cos, spec_fx_asin, spec_fx_atan2, spec_fx_mag, fx_sin, fx_cos, fx_asin,
    fx_atan2, fx_mag,
};
use crate::noise::NoiseSource;
use crate::types::{CelestialBody, Fragment, Uniforms};

verus! {

/// Remap a scalar into [0, 1] by sin(x) * 0.5 + 0.5.
pub open spec fn spec_sin01(x: int) -> int {
    spec_fx_add(spec_fx_mul(spec_fx_sin(x), 500), 500)
}

fn sin01(x: i64) -> (r: i64)
    ensures
        r as int == spec_sin01(x as int),
{
    fx_add(fx_mul(fx_sin(x), 500), 500)
}

/// Remap a scalar into [0, 1] by cos(x) * 0.5 + 0.5.
pub open spec fn spec_cos01(x: int) -> int {
    spec_fx_add(spec_fx_mul(spec_fx_cos(x), 500), 500)
}

fn cos01(x: i64) -> (r: i64)
    ensures
        r as int == spec_cos01(x as int),
{
    fx_add(fx_mul(fx_cos(x), 500), 500)
}

/// The star surface: two plasma layers blend the core color toward the
/// corona color, and a corona sample lifts the brightness above 1.
pub open spec fn spec_sun_shader<N: NoiseSource>(fragment: Fragment, uniforms: Uniforms<N>) -> Color {
    let px = fragment.vertex_position.x as int;
    let py = fragment.vertex_position.y as int;
    let time = spec_sat_mul(uniforms.time as int, 10);
    let plasma1 = uniforms.noise.spec_noise3(
        spec_fx_add(spec_fx_mul(px, 50000), time),
        spec_fx_mul(py, 50000),
        spec_fx_mul(time, 2000),
    );
    let plasma2 = uniforms.noise.spec_noise3(
        spec_fx_sub(spec_fx_mul(px, 30000), time),
        spec_fx_mul(py, 30000),
        time,
    );
    let corona = spec_fx_abs(uniforms.noise.spec_noise3(
        spec_fx_mul(px, 10000),
        spec_fx_mul(py, 10000),
        spec_fx_mul(time, 500),
    ));
    let combined_noise = spec_fx_mul(spec_fx_add(plasma1, plasma2), 500);
    let core_color = Color { r: 255, g: 200, b: 0 };
    let corona_color = Color { r: 255, g: 100, b: 0 };
    let final_color = spec_lerp(core_color, corona_color, spec_fx_abs(combined_noise));
    let brightness = spec_fx_add(1000, spec_fx_mul(corona, 500));
    spec_scale(spec_scale(final_color, brightness), fragment.intensity as int)
}

/// Shade a star fragment; the result is exactly [`spec_sun_shader`].
pub fn sun_shader<N: NoiseSource>(fragment: &Fragment, uniforms: &Uniforms<N>) -> (r: Color)
    ensures
        r == spec_sun_shader(*fragment, *uniforms),
{
    let position = fragment.vertex_position;
    let time = sat_mul(uniforms.time, 10);

    let core_color = Color::new(255, 200, 0);
    let corona_color = Color::new(255, 100, 0);

    let plasma1 = uniforms.noise.get_noise_3d(
        fx_add(fx_mul(position.x, 50000), time),
        fx_mul(position.y, 50000),
        fx_mul(time, 2000),
    );
    let plasma2 = uniforms.noise.get_noise_3d(
        fx_sub(fx_mul(position.x, 30000), time),
        fx_mul(position.y, 30000),
        time,
    );
    let corona = fx_abs(uniforms.noise.get_noise_3d(
        fx_mul(position.x, 10000),
        fx_mul(position.y, 10000),
        fx_mul(time, 500),
    ));

    let combined_noise = fx_mul(fx_add(plasma1, plasma2), 500);
    let final_color = core_color.lerp(&corona_color, fx_abs(combined_noise));

    let brightness = fx_add(1000, fx_mul(corona, 500));

    final_color.scale(brightness).scale(fragment.intensity)
}

/// The rocky planet: a crater/highland/desert threshold ladder under a
/// blended dust overlay.
pub open spec fn spec_rocky_planet_shader<N: NoiseSource>(fragment: Fragment, uniforms: Uniforms<N>) -> Color {
    let px = fragment.vertex_position.x as int;
    let py = fragment.vertex_position.y as int;
    let pz = fragment.vertex_position.z as int;
    let time = uniforms.time as int;
    let terrain = uniforms.noise.spec_noise3(
        spec_fx_mul(px, 100000),
        spec_fx_mul(py, 100000),
        spec_fx_mul(pz, 100000),
    );
    let craters = spec_fx_abs(uniforms.noise.spec_noise3(
        spec_fx_add(spec_fx_mul(px, 200000), 1000000),
        spec_fx_add(spec_fx_mul(py, 200000), 1000000),
        spec_fx_mul(pz, 200000),
    ));
    let dust = uniforms.noise.spec_noise3(
        spec_fx_add(spec_fx_mul(px, 50000), time),
        spec_fx_mul(py, 50000),
        spec_fx_mul(pz, 50000),
    );
    let desert_color = Color { r: 180, g: 80, b: 20 };
    let crater_color = Color { r: 120, g: 50, b: 10 };
    let highland_color = Color { r: 200, g: 100, b: 30 };
    let base = if craters > 700 {
        crater_color
    } else if terrain > 300 {
        highland_color
    } else {
        desert_color
    };
    let dust_color = Color { r: 200, g: 150, b: 100 };
    let final_color = spec_lerp(base, dust_color, spec_fx_mul(spec_fx_abs(dust), 300));
    spec_scale(final_color, fragment.intensity as int)
}

/// Shade a rocky-planet fragment; exactly [`spec_rocky_planet_shader`].
pub fn rocky_planet_shader<N: NoiseSource>(fragment: &Fragment, uniforms: &Uniforms<N>) -> (r: Color)
    ensures
        r == spec_rocky_planet_shader(*fragment, *uniforms),
{
    let position = fragment.vertex_position;
    let time = uniforms.time;

    let desert_color = Color::new(180, 80, 20);
    let crater_color = Color::new(120, 50, 10);
    let highland_color = Color::new(200, 100, 30);

    let terrain = uniforms.noise.get_noise_3d(
        fx_mul(position.x, 100000),
        fx_mul(position.y, 100000),
        fx_mul(position.z, 100000),
    );
    let craters = fx_abs(uniforms.noise.get_noise_3d(
        fx_add(fx_mul(position.x, 200000), 1000000),
        fx_add(fx_mul(position.y, 200000), 1000000),
        fx_mul(position.z, 200000),
    ));
    let dust = uniforms.noise.get_noise_3d(
        fx_add(fx_mul(position.x, 50000), time),
        fx_mul(position.y, 50000),
        fx_mul(position.z, 50000),
    );

    let mut final_color = desert_color;
    if craters > 700 {
        final_color = crater_color;
    } else if terrain > 300 {
        final_color = highland_color;
    }

    let dust_color = Color::new(200, 150, 100);
    final_color = final_color.lerp(&dust_color, fx_mul(fx_abs(dust), 300));

    final_color.scale(fragment.intensity)
}

/// The cloudy planet: a land/ocean threshold under one moving cloud
/// overlay.
pub open spec fn spec_cloudy_planet_shader<N: NoiseSource>(fragment: Fragment, uniforms: Uniforms<N>) -> Color {
    let px = fragment.vertex_position.x as int;
    let py = fragment.vertex_position.y as int;
    let time = spec_sat_mul(uniforms.time as int, 10);
    let surface = uniforms.noise.spec_noise2(spec_fx_mul(px, 100000), spec_fx_mul(py, 100000));
    let clouds = uniforms.noise.spec_noise3(
        spec_fx_add(spec_fx_mul(px, 50000), time),
        spec_fx_add(spec_fx_mul(py, 50000), spec_fx_mul(time, 500)),
        time,
    );
    let surface_color = Color { r: 30, g: 100, b: 200 };
    let land_color = Color { r: 50, g: 120, b: 50 };
    let cloud_color = Color { r: 255, g: 255, b: 255 };
    let base_color = if surface > 200 {
        land_color
    } else {
        surface_color
    };
    let final_color = if clouds > 300 {
        spec_lerp(base_color, cloud_color, spec_fx_mul(spec_fx_sub(clouds, 300), 2000))
    } else {
        base_color
    };
    spec_scale(final_color, fragment.intensity as int)
}

/// Shade a cloudy-planet fragment; exactly [`spec_cloudy_planet_shader`].
pub fn cloudy_planet_shader<N: NoiseSource>(fragment: &Fragment, uniforms: &Uniforms<N>) -> (r: Color)
    ensures
        r == spec_cloudy_planet_shader(*fragment, *uniforms),
{
    let position = fragment.vertex_position;
    let time = sat_mul(uniforms.time, 10);

    let surface_color = Color::new(30, 100, 200);
    let land_color = Color::new(50, 120, 50);
    let cloud_color = Color::new(255, 255, 255);

    let surface = uniforms.noise.get_noise_2d(
        fx_mul(position.x, 100000),
        fx_mul(position.y, 100000),
    );
    let clouds = uniforms.noise.get_noise_3d(
        fx_add(fx_mul(position.x, 50000), time),
        fx_add(fx_mul(position.y, 50000), fx_mul(time, 500)),
        time,
    );

    let base_color = if surface > 200 {
        land_color
    } else {
        surface_color
    };

    let final_color = if clouds > 300 {
        base_color.lerp(&cloud_color, fx_mul(fx_sub(clouds, 300), 2000))
    } else {
        base_color
    };

    final_color.scale(fragment.intensity)
}

/// The ringed planet: the pattern's sign selects the branch, and the output
/// alpha is itself derived from the density pattern rather than fixed.
pub open spec fn spec_ring_shader<N: NoiseSource>(fragment: Fragment, uniforms: Uniforms<N>) -> Color {
    let px = fragment.vertex_position.x as int;
    let py = fragment.vertex_position.y as int;
    let pz = fragment.vertex_position.z as int;
    let time = uniforms.time as int;
    let ring_pattern = uniforms.noise.spec_noise3(
        spec_fx_add(spec_fx_mul(px, 200000), time),
        spec_fx_mul(py, 200000),
        spec_fx_mul(pz, 200000),
    );
    let density = uniforms.noise.spec_noise2(spec_fx_mul(px, 100000), spec_fx_mul(py, 100000));
    let ring1_color = Color { r: 180, g: 150, b: 120 };
    let ring2_color = Color { r: 100, g: 80, b: 60 };
    let final_color = if ring_pattern > 0 {
        spec_lerp(ring1_color, ring2_color, spec_fx_abs(density))
    } else {
        ring2_color
    };
    let alpha = spec_fx_mul(
        spec_fx_add(spec_fx_mul(spec_fx_abs(density), 500), 500),
        fragment.intensity as int,
    );
    spec_scale(final_color, alpha)
}

/// Shade a ringed-planet fragment; exactly [`spec_ring_shader`].
pub fn ring_shader<N: NoiseSource>(fragment: &Fragment, uniforms: &Uniforms<N>) -> (r: Color)
    ensures
        r == spec_ring_shader(*fragment, *uniforms),
{
    let position = fragment.vertex_position;
    let time = uniforms.time;

    let ring1_color = Color::new(180, 150, 120);
    let ring2_color = Color::new(100, 80, 60);

    let ring_pattern = uniforms.noise.get_noise_3d(
        fx_add(fx_mul(position.x, 200000), time),
        fx_mul(position.y, 200000),
        fx_mul(position.z, 200000),
    );
    let density = uniforms.noise.get_noise_2d(
        fx_mul(position.x, 100000),
        fx_mul(position.y, 100000),
    );

    let final_color = if ring_pattern > 0 {
        ring1_color.lerp(&ring2_color, fx_abs(density))
    } else {
        ring2_color
    };

    let alpha = fx_mul(fx_add(fx_mul(fx_abs(density), 500), 500), fragment.intensity);
    final_color.scale(alpha)
}

/// The color planet: two base blends plus a high-frequency ring overlay
/// applied on both sides of its threshold (an if/else, not a gate).
pub open spec fn spec_colorful_planet_shader<N: NoiseSource>(fragment: Fragment, uniforms: Uniforms<N>) -> Color {
    let px = fragment.vertex_position.x as int;
    let py = fragment.vertex_position.y as int;
    let pz = fragment.vertex_position.z as int;
    let time = spec_sat_mul(uniforms.time as int, 10);
    let curve_pattern = spec_sin01(uniforms.noise.spec_noise3(
        spec_fx_add(spec_fx_mul(px, 5000), spec_fx_mul(time, 1500)),
        spec_fx_mul(py, 5000),
        spec_fx_mul(pz, 5000),
    ));
    let wave_pattern = spec_sin01(
        spec_fx_add(spec_fx_add(spec_fx_mul(px, 15000), spec_fx_mul(py, 15000)), time),
    );
    let color1 = Color { r: 245, g: 56, b: 121 };
    let color2 = Color { r: 245, g: 140, b: 105 };
    let color3 = Color { r: 245, g: 115, b: 105 };
    let color4 = Color { r: 245, g: 105, b: 238 };
    let color5 = Color { r: 245, g: 159, b: 95 };
    let base = spec_lerp(
        spec_lerp(color1, color2, curve_pattern),
        color3,
        spec_fx_mul(wave_pattern, 700),
    );
    let accented = if curve_pattern > 600 {
        spec_lerp(base, color4, spec_fx_sub(curve_pattern, 300))
    } else if wave_pattern > 500 {
        spec_lerp(base, color5, spec_fx_sub(wave_pattern, 300))
    } else {
        base
    };
    let ring_pattern = spec_fx_abs(uniforms.noise.spec_noise3(
        spec_fx_add(spec_fx_mul(px, 200000), time),
        spec_fx_mul(py, 200000),
        spec_fx_mul(pz, 200000),
    ));
    let ring1_color = Color { r: 245, g: 7, b: 123 };
    let ring2_color = Color { r: 245, g: 166, b: 195 };
    let final_color = if ring_pattern > 500 {
        spec_lerp(accented, ring1_color, spec_fx_sub(ring_pattern, 500))
    } else {
        spec_lerp(accented, ring2_color, spec_fx_sub(500, ring_pattern))
    };
    spec_scale(final_color, fragment.intensity as int)
}

/// Shade a color-planet fragment; exactly [`spec_colorful_planet_shader`].
pub fn colorful_planet_shader<N: NoiseSource>(fragment: &Fragment, uniforms: &Uniforms<N>) -> (r: Color)
    ensures
        r == spec_colorful_planet_shader(*fragment, *uniforms),
{
    let position = fragment.vertex_position;
    let time = sat_mul(uniforms.time, 10);

    let color1 = Color::new(245, 56, 121);
    let color2 = Color::new(245, 140, 105);
    let color3 = Color::new(245, 115, 105);
    let color4 = Color::new(245, 105, 238);
    let color5 = Color::new(245, 159, 95);

    let ring1_color = Color::new(245, 7, 123);
    let ring2_color = Color::new(245, 166, 195);

    let curve_pattern = sin01(uniforms.noise.get_noise_3d(
        fx_add(fx_mul(position.x, 5000), fx_mul(time, 1500)),
        fx_mul(position.y, 5000),
        fx_mul(position.z, 5000),
    ));

    let wave_pattern = sin01(fx_add(
        fx_add(fx_mul(position.x, 15000), fx_mul(position.y, 15000)),
        time,
    ));

    let mut final_color = color1.lerp(&color2, curve_pattern);
    final_color = final_color.lerp(&color3, fx_mul(wave_pattern, 700));

    if curve_pattern > 600 {
        final_color = final_color.lerp(&color4, fx_sub(curve_pattern, 300));
    } else if wave_pattern > 500 {
        final_color = final_color.lerp(&color5, fx_sub(wave_pattern, 300));
    }

    let ring_pattern = fx_abs(uniforms.noise.get_noise_3d(
        fx_add(fx_mul(position.x, 200000), time),
        fx_mul(position.y, 200000),
        fx_mul(position.z, 200000),
    ));

    if ring_pattern > 500 {
        final_color = final_color.lerp(&ring1_color, fx_sub(ring_pattern, 500));
    } else {
        final_color = final_color.lerp(&ring2_color, fx_sub(500, ring_pattern));
    }

    final_color.scale(fragment.intensity)
}

/// The moon: a crater threshold, a blended dust overlay and a faint
/// secondary crater overlay.
pub open spec fn spec_moon_shader<N: NoiseSource>(fragment: Fragment, uniforms: Uniforms<N>) -> Color {
    let px = fragment.vertex_position.x as int;
    let py = fragment.vertex_position.y as int;
    let pz = fragment.vertex_position.z as int;
    let time = uniforms.time as int;
    let craters = spec_fx_abs(uniforms.noise.spec_noise3(
        spec_fx_mul(px, 150000),
        spec_fx_mul(py, 150000),
        spec_fx_mul(pz, 150000),
    ));
    let dust = uniforms.noise.spec_noise3(
        spec_fx_add(spec_fx_mul(px, 80000), time),
        spec_fx_mul(py, 80000),
        spec_fx_mul(pz, 80000),
    );
    let surface_details = spec_fx_abs(uniforms.noise.spec_noise3(
        spec_fx_mul(px, 200000),
        spec_fx_mul(py, 200000),
        spec_fx_mul(pz, 200000),
    ));
    let base_color = Color { r: 180, g: 180, b: 180 };
    let crater_color = Color { r: 100, g: 100, b: 100 };
    let dust_color = Color { r: 150, g: 150, b: 150 };
    let cratered = if craters > 700 {
        spec_lerp(base_color, crater_color, spec_fx_mul(spec_fx_sub(craters, 700), 2000))
    } else {
        base_color
    };
    let dusted = spec_lerp(cratered, dust_color, spec_fx_mul(spec_fx_abs(dust), 200));
    let final_color = if surface_details > 800 {
        spec_lerp(dusted, crater_color, spec_fx_mul(spec_fx_sub(surface_details, 800), 500))
    } else {
        dusted
    };
    spec_scale(final_color, fragment.intensity as int)
}

/// Shade a moon fragment; exactly [`spec_moon_shader`].
pub fn moon_shader<N: NoiseSource>(fragment: &Fragment, uniforms: &Uniforms<N>) -> (r: Color)
    ensures
        r == spec_moon_shader(*fragment, *uniforms),
{
    let position = fragment.vertex_position;
    let time = uniforms.time;

    let base_color = Color::new(180, 180, 180);
    let crater_color = Color::new(100, 100, 100);
    let dust_color = Color::new(150, 150, 150);

    let craters = fx_abs(uniforms.noise.get_noise_3d(
        fx_mul(position.x, 150000),
        fx_mul(position.y, 150000),
        fx_mul(position.z, 150000),
    ));
    let dust = uniforms.noise.get_noise_3d(
        fx_add(fx_mul(position.x, 80000), time),
        fx_mul(position.y, 80000),
        fx_mul(position.z, 80000),
    );
    let surface_details = fx_abs(uniforms.noise.get_noise_3d(
        fx_mul(position.x, 200000),
        fx_mul(position.y, 200000),
        fx_mul(position.z, 200000),
    ));

    let mut final_color = base_color;

    if craters > 700 {
        final_color = final_color.lerp(&crater_color, fx_mul(fx_sub(craters, 700), 2000));
    }

    final_color = final_color.lerp(&dust_color, fx_mul(fx_abs(dust), 200));

    if surface_details > 800 {
        final_color = final_color.lerp(&crater_color, fx_mul(fx_sub(surface_details, 800), 500));
    }

    final_color.scale(fragment.intensity)
}

/// The ocean planet: a depth-banded blend (shallow, reef, deep) plus a foam
/// overlay gated on wave height.
pub open spec fn spec_ocean_planet_shader<N: NoiseSource>(fragment: Fragment, uniforms: Uniforms<N>) -> Color {
    let px = fragment.vertex_position.x as int;
    let py = fragment.vertex_position.y as int;
    let pz = fragment.vertex_position.z as int;
    let time = spec_sat_mul(uniforms.time as int, 10);
    let waves = spec_fx_abs(uniforms.noise.spec_noise3(
        spec_fx_add(spec_fx_mul(px, 50000), time),
        spec_fx_add(spec_fx_mul(py, 50000), spec_fx_mul(time, 500)),
        spec_fx_mul(pz, 50000),
    ));
    let depth = spec_fx_abs(uniforms.noise.spec_noise3(
        spec_fx_mul(px, 30000),
        spec_fx_mul(py, 30000),
        spec_fx_mul(pz, 30000),
    ));
    let currents = spec_fx_abs(uniforms.noise.spec_noise3(
        spec_fx_sub(spec_fx_mul(px, 20000), spec_fx_mul(time, 300)),
        spec_fx_mul(py, 20000),
        spec_fx_mul(pz, 20000),
    ));
    let deep_ocean = Color { r: 0, g: 51, b: 102 };
    let shallow_water = Color { r: 0, g: 153, b: 204 };
    let coral_reef = Color { r: 64, g: 224, b: 208 };
    let surface_foam = Color { r: 240, g: 255, b: 255 };
    let banded = if depth < 300 {
        spec_lerp(deep_ocean, shallow_water, spec_fx_add(depth, spec_fx_mul(waves, 200)))
    } else if depth < 600 {
        spec_lerp(deep_ocean, coral_reef, spec_fx_mul(currents, 500))
    } else {
        deep_ocean
    };
    let final_color = if waves > 700 {
        spec_lerp(banded, surface_foam, spec_fx_mul(spec_fx_sub(waves, 700), 800))
    } else {
        banded
    };
    spec_scale(final_color, fragment.intensity as int)
}

/// Shade an ocean-planet fragment; exactly [`spec_ocean_planet_shader`].
pub fn ocean_planet_shader<N: NoiseSource>(fragment: &Fragment, uniforms: &Uniforms<N>) -> (r: Color)
    ensures
        r == spec_ocean_planet_shader(*fragment, *uniforms),
{
    let position = fragment.vertex_position;
    let time = sat_mul(uniforms.time, 10);

    let deep_ocean = Color::new(0, 51, 102);
    let shallow_water = Color::new(0, 153, 204);
    let coral_reef = Color::new(64, 224, 208);
    let surface_foam = Color::new(240, 255, 255);

    let waves = fx_abs(uniforms.noise.get_noise_3d(
        fx_add(fx_mul(position.x, 50000), time),
        fx_add(fx_mul(position.y, 50000), fx_mul(time, 500)),
        fx_mul(position.z, 50000),
    ));
    let depth = fx_abs(uniforms.noise.get_noise_3d(
        fx_mul(position.x, 30000),
        fx_mul(position.y, 30000),
        fx_mul(position.z, 30000),
    ));
    let currents = fx_abs(uniforms.noise.get_noise_3d(
        fx_sub(fx_mul(position.x, 20000), fx_mul(time, 300)),
        fx_mul(position.y, 20000),
        fx_mul(position.z, 20000),
    ));

    let mut final_color = deep_ocean;

    if depth < 300 {
        final_color = final_color.lerp(&shallow_water, fx_add(depth, fx_mul(waves, 200)));
    } else if depth < 600 {
        final_color = final_color.lerp(&coral_reef, fx_mul(currents, 500));
    }

    if waves > 700 {
        final_color = final_color.lerp(&surface_foam, fx_mul(fx_sub(waves, 700), 800));
    }

    final_color.scale(fragment.intensity)
}

/// The gas giant: band selection by a threshold ladder and a storm overlay
/// active only in the quadrant with positive x and y.
pub open spec fn spec_gas_giant_shader<N: NoiseSource>(fragment: Fragment, uniforms: Uniforms<N>) -> Color {
    let px = fragment.vertex_position.x as int;
    let py = fragment.vertex_position.y as int;
    let pz = fragment.vertex_position.z as int;
    let time = spec_sat_mul(uniforms.time as int, 5);
    let bands = uniforms.noise.spec_noise3(
        spec_fx_add(spec_fx_mul(px, 50000), time),
        spec_fx_add(spec_fx_mul(py, 15000), spec_fx_mul(time, 200)),
        spec_fx_mul(pz, 50000),
    );
    let secondary_bands = uniforms.noise.spec_noise3(
        spec_fx_add(spec_fx_mul(px, 25000), spec_fx_mul(time, 500)),
        spec_fx_add(spec_fx_mul(py, 10000), spec_fx_mul(time, 100)),
        spec_fx_mul(pz, 25000),
    );
    let storm = spec_fx_abs(uniforms.noise.spec_noise3(
        spec_fx_mul(spec_fx_add(px, 500), 150000),
        spec_fx_mul(spec_fx_add(py, 500), 150000),
        time,
    ));
    let turbulence = spec_fx_abs(uniforms.noise.spec_noise3(
        spec_fx_add(spec_fx_mul(px, 100000), spec_fx_mul(time, 2000)),
        spec_fx_mul(py, 100000),
        spec_fx_mul(pz, 100000),
    ));
    let band1_color = Color { r: 255, g: 225, b: 190 };
    let band2_color = Color { r: 210, g: 160, b: 110 };
    let band3_color = Color { r: 180, g: 130, b: 90 };
    let storm_core_color = Color { r: 255, g: 100, b: 80 };
    let storm_edge_color = Color { r: 255, g: 140, b: 100 };
    let base_band_color = if bands > 200 {
        band1_color
    } else if secondary_bands > 0 {
        band2_color
    } else {
        band3_color
    };
    let stormy = if storm > 500 && px > 0 && py > 0 {
        spec_lerp(storm_core_color, storm_edge_color, spec_fx_mul(spec_fx_sub(storm, 500), 2000))
    } else {
        base_band_color
    };
    let final_color = spec_lerp(stormy, band3_color, spec_fx_mul(turbulence, 300));
    spec_scale(final_color, fragment.intensity as int)
}

/// Shade a gas-giant fragment; exactly [`spec_gas_giant_shader`].
pub fn gas_giant_shader<N: NoiseSource>(fragment: &Fragment, uniforms: &Uniforms<N>) -> (r: Color)
    ensures
        r == spec_gas_giant_shader(*fragment, *uniforms),
{
    let position = fragment.vertex_position;
    let time = sat_mul(uniforms.time, 5);

    let band1_color = Color::new(255, 225, 190);
    let band2_color = Color::new(210, 160, 110);
    let band3_color = Color::new(180, 130, 90);

    let storm_core_color = Color::new(255, 100, 80);
    let storm_edge_color = Color::new(255, 140, 100);

    let bands = uniforms.noise.get_noise_3d(
        fx_add(fx_mul(position.x, 50000), time),
        fx_add(fx_mul(position.y, 15000), fx_mul(time, 200)),
        fx_mul(position.z, 50000),
    );
    let secondary_bands = uniforms.noise.get_noise_3d(
        fx_add(fx_mul(position.x, 25000), fx_mul(time, 500)),
        fx_add(fx_mul(position.y, 10000), fx_mul(time, 100)),
        fx_mul(position.z, 25000),
    );
    let storm = fx_abs(uniforms.noise.get_noise_3d(
        fx_mul(fx_add(position.x, 500), 150000),
        fx_mul(fx_add(position.y, 500), 150000),
        time,
    ));
    let turbulence = fx_abs(uniforms.noise.get_noise_3d(
        fx_add(fx_mul(position.x, 100000), fx_mul(time, 2000)),
        fx_mul(position.y, 100000),
        fx_mul(position.z, 100000),
    ));

    let base_band_color = if bands > 200 {
        band1_color
    } else if secondary_bands > 0 {
        band2_color
    } else {
        band3_color
    };

    let mut final_color = if storm > 500 && position.x > 0 && position.y > 0 {
        storm_core_color.lerp(&storm_edge_color, fx_mul(fx_sub(storm, 500), 2000))
    } else {
        base_band_color
    };

    final_color = final_color.lerp(&band3_color, fx_mul(turbulence, 300));

    final_color.scale(fragment.intensity)
}

/// The ice planet: layered ice blends under independently thresholded
/// overlays (cracks, crystal sparkle, aurora tint, frost, polar twilight),
/// with the final intensity damped by an inverse-depth factor.
pub open spec fn spec_ice_planet_shader<N: NoiseSource>(fragment: Fragment, uniforms: Uniforms<N>) -> Color {
    let px = fragment.vertex_position.x as int;
    let py = fragment.vertex_position.y as int;
    let pz = fragment.vertex_position.z as int;
    let time = spec_sat_mul(uniforms.time as int, 2);
    let ice_base = spec_fx_abs(uniforms.noise.spec_noise3(
        spec_fx_add(spec_fx_mul(px, 80000), spec_fx_mul(time, 100)),
        spec_fx_mul(py, 80000),
        spec_fx_mul(pz, 80000),
    ));
    let ice_detail = spec_fx_abs(uniforms.noise.spec_noise3(
        spec_fx_add(spec_fx_mul(px, 150000), spec_fx_mul(time, 200)),
        spec_fx_mul(py, 150000),
        spec_fx_mul(pz, 150000),
    ));
    let cracks_primary = spec_fx_abs(uniforms.noise.spec_noise3(
        spec_fx_add(spec_fx_mul(px, 120000), spec_fx_mul(time, 500)),
        spec_fx_mul(py, 120000),
        spec_fx_mul(pz, 120000),
    ));
    let cracks_secondary = spec_fx_abs(uniforms.noise.spec_noise3(
        spec_fx_sub(spec_fx_mul(px, 180000), spec_fx_mul(time, 300)),
        spec_fx_mul(py, 180000),
        spec_fx_mul(pz, 180000),
    ));
    let crystals_large = spec_fx_abs(uniforms.noise.spec_noise3(
        spec_fx_add(spec_fx_mul(px, 200000), spec_fx_mul(time, 100)),
        spec_fx_mul(py, 200000),
        spec_fx_mul(pz, 200000),
    ));
    let crystals_small = spec_fx_abs(uniforms.noise.spec_noise3(
        spec_fx_add(spec_fx_mul(px, 300000), spec_fx_mul(time, 200)),
        spec_fx_mul(py, 300000),
        spec_fx_mul(pz, 300000),
    ));
    let aurora_effect = spec_fx_abs(spec_fx_mul(
        spec_fx_mul(
            spec_fx_sin(spec_fx_add(spec_fx_mul(px, 3000), time)),
            spec_fx_cos(spec_fx_add(spec_fx_mul(py, 3000), spec_fx_mul(time, 700))),
        ),
        spec_fx_sin(spec_fx_add(spec_fx_mul(pz, 3000), spec_fx_mul(time, 500))),
    ));
    let frost_pattern = spec_fx_abs(uniforms.noise.spec_noise3(
        spec_fx_add(spec_fx_mul(px, 400000), spec_fx_mul(time, 100)),
        spec_fx_mul(py, 400000),
        spec_fx_mul(pz, 400000),
    ));
    let ice_color = Color { r: 220, g: 240, b: 255 };
    let deep_ice_color = Color { r: 120, g: 180, b: 255 };
    let crack_color = Color { r: 80, g: 130, b: 255 };
    let crystal_glow = Color { r: 230, g: 255, b: 255 };
    let aurora_ice = Color { r: 160, g: 255, b: 220 };
    let deep_blue = Color { r: 40, g: 100, b: 255 };
    let frost_white = Color { r: 255, g: 255, b: 255 };
    let twilight_ice = Color { r: 180, g: 200, b: 255 };
    let ice_layers = spec_fx_add(spec_fx_mul(ice_base, 700), spec_fx_mul(ice_detail, 300));
    let layered = spec_lerp(ice_color, deep_ice_color, ice_layers);
    let crack_pattern = spec_fx_add(
        spec_fx_mul(cracks_primary, 600),
        spec_fx_mul(cracks_secondary, 400),
    );
    let cracked = if crack_pattern > 650 {
        let crack_intensity = spec_fx_mul(spec_fx_sub(crack_pattern, 650), 2500);
        let shallow = spec_lerp(layered, crack_color, crack_intensity);
        if crack_pattern > 850 {
            spec_lerp(shallow, deep_blue, spec_fx_mul(spec_fx_sub(crack_pattern, 850), 3000))
        } else {
            shallow
        }
    } else {
        layered
    };
    let crystal_pattern = spec_fx_add(
        spec_fx_mul(crystals_large, 600),
        spec_fx_mul(crystals_small, 400),
    );
    let crystalline = if crystal_pattern > 750 {
        let mag = spec_fx_mag(px, py, pz);
        let sparkle = spec_sin01(spec_fx_add(spec_fx_mul(time, 5000), spec_fx_mul(mag, 10000)));
        spec_lerp(
            cracked,
            crystal_glow,
            spec_fx_mul(spec_fx_mul(spec_fx_sub(crystal_pattern, 750), 3000), sparkle),
        )
    } else {
        cracked
    };
    let with_aurora = if aurora_effect > 700 {
        spec_lerp(crystalline, aurora_ice, spec_fx_mul(spec_fx_sub(aurora_effect, 700), 1500))
    } else {
        crystalline
    };
    let frosted = if frost_pattern > 900 {
        spec_lerp(with_aurora, frost_white, spec_fx_mul(spec_fx_sub(frost_pattern, 900), 10000))
    } else {
        with_aurora
    };
    let depth = spec_fx_abs(uniforms.noise.spec_noise3(
        spec_fx_mul(px, 2000),
        spec_fx_mul(py, 2000),
        spec_fx_mul(pz, 2000),
    ));
    let twilight = spec_fx_abs(spec_fx_mul(py, 2000));
    let final_color = if twilight > 800 {
        spec_lerp(frosted, twilight_ice, spec_fx_mul(spec_fx_sub(twilight, 800), 2000))
    } else {
        frosted
    };
    let depth_intensity = spec_fx_sub(1000, spec_fx_mul(depth, 300));
    spec_scale(spec_scale(final_color, fragment.intensity as int), depth_intensity)
}

/// Shade an ice-planet fragment; exactly [`spec_ice_planet_shader`].
pub fn ice_planet_shader<N: NoiseSource>(fragment: &Fragment, uniforms: &Uniforms<N>) -> (r: Color)
    ensures
        r == spec_ice_planet_shader(*fragment, *uniforms),
{
    let position = fragment.vertex_position;
    let time = sat_mul(uniforms.time, 2);

    let ice_color = Color::new(220, 240, 255);
    let deep_ice_color = Color::new(120, 180, 255);
    let crack_color = Color::new(80, 130, 255);
    let crystal_glow = Color::new(230, 255, 255);
    let aurora_ice = Color::new(160, 255, 220);
    let deep_blue = Color::new(40, 100, 255);
    let frost_white = Color::new(255, 255, 255);
    let twilight_ice = Color::new(180, 200, 255);

    let ice_base = fx_abs(uniforms.noise.get_noise_3d(
        fx_add(fx_mul(position.x, 80000), fx_mul(time, 100)),
        fx_mul(position.y, 80000),
        fx_mul(position.z, 80000),
    ));
    let ice_detail = fx_abs(uniforms.noise.get_noise_3d(
        fx_add(fx_mul(position.x, 150000), fx_mul(time, 200)),
        fx_mul(position.y, 150000),
        fx_mul(position.z, 150000),
    ));
    let cracks_primary = fx_abs(uniforms.noise.get_noise_3d(
        fx_add(fx_mul(position.x, 120000), fx_mul(time, 500)),
        fx_mul(position.y, 120000),
        fx_mul(position.z, 120000),
    ));
    let cracks_secondary = fx_abs(uniforms.noise.get_noise_3d(
        fx_sub(fx_mul(position.x, 180000), fx_mul(time, 300)),
        fx_mul(position.y, 180000),
        fx_mul(position.z, 180000),
    ));
    let crystals_large = fx_abs(uniforms.noise.get_noise_3d(
        fx_add(fx_mul(position.x, 200000), fx_mul(time, 100)),
        fx_mul(position.y, 200000),
        fx_mul(position.z, 200000),
    ));
    let crystals_small = fx_abs(uniforms.noise.get_noise_3d(
        fx_add(fx_mul(position.x, 300000), fx_mul(time, 200)),
        fx_mul(position.y, 300000),
        fx_mul(position.z, 300000),
    ));
    let aurora_effect = fx_abs(fx_mul(
        fx_mul(
            fx_sin(fx_add(fx_mul(position.x, 3000), time)),
            fx_cos(fx_add(fx_mul(position.y, 3000), fx_mul(time, 700))),
        ),
        fx_sin(fx_add(fx_mul(position.z, 3000), fx_mul(time, 500))),
    ));
    let frost_pattern = fx_abs(uniforms.noise.get_noise_3d(
        fx_add(fx_mul(position.x, 400000), fx_mul(time, 100)),
        fx_mul(position.y, 400000),
        fx_mul(position.z, 400000),
    ));

    let ice_layers = fx_add(fx_mul(ice_base, 700), fx_mul(ice_detail, 300));
    let mut final_color = ice_color.lerp(&deep_ice_color, ice_layers);

    let crack_pattern = fx_add(fx_mul(cracks_primary, 600), fx_mul(cracks_secondary, 400));
    if crack_pattern > 650 {
        let crack_intensity = fx_mul(fx_sub(crack_pattern, 650), 2500);
        final_color = final_color.lerp(&crack_color, crack_intensity);

        if crack_pattern > 850 {
            final_color = final_color.lerp(&deep_blue, fx_mul(fx_sub(crack_pattern, 850), 3000));
        }
    }

    let crystal_pattern = fx_add(fx_mul(crystals_large, 600), fx_mul(crystals_small, 400));
    if crystal_pattern > 750 {
        let mag = fx_mag(position.x, position.y, position.z);
        let sparkle = sin01(fx_add(fx_mul(time, 5000), fx_mul(mag, 10000)));
        final_color = final_color.lerp(
            &crystal_glow,
            fx_mul(fx_mul(fx_sub(crystal_pattern, 750), 3000), sparkle),
        );
    }

    if aurora_effect > 700 {
        final_color = final_color.lerp(&aurora_ice, fx_mul(fx_sub(aurora_effect, 700), 1500));
    }

    if frost_pattern > 900 {
        final_color = final_color.lerp(&frost_white, fx_mul(fx_sub(frost_pattern, 900), 10000));
    }

    let depth = fx_abs(uniforms.noise.get_noise_3d(
        fx_mul(position.x, 2000),
        fx_mul(position.y, 2000),
        fx_mul(position.z, 2000),
    ));

    let twilight = fx_abs(fx_mul(position.y, 2000));
    if twilight > 800 {
        final_color = final_color.lerp(&twilight_ice, fx_mul(fx_sub(twilight, 800), 2000));
    }

    let depth_intensity = fx_sub(1000, fx_mul(depth, 300));
    final_color.scale(fragment.intensity).scale(depth_intensity)
}

/// The nature planet: a latitude-driven biome mix under several independent
/// structural overlays (bark, fungi lines, bioluminescence, pollen, rivers)
/// and a time-varying fog blend.
pub open spec fn spec_nature_planet_shader<N: NoiseSource>(fragment: Fragment, uniforms: Uniforms<N>) -> Color {
    let px = fragment.vertex_position.x as int;
    let py = fragment.vertex_position.y as int;
    let pz = fragment.vertex_position.z as int;
    let time = spec_sat_mul(uniforms.time as int, 5);
    let veg_base = spec_sin01(uniforms.noise.spec_noise3(
        spec_fx_add(spec_fx_mul(px, 3500), spec_fx_mul(time, 800)),
        spec_fx_mul(py, 3500),
        spec_fx_mul(pz, 3500),
    ));
    let veg_detail = spec_sin01(uniforms.noise.spec_noise3(
        spec_fx_add(spec_fx_mul(px, 8000), spec_fx_mul(time, 400)),
        spec_fx_add(spec_fx_mul(py, 8000), spec_fx_mul(time, 300)),
        spec_fx_mul(pz, 8000),
    ));
    let vegetation_pattern = spec_fx_add(spec_fx_mul(veg_base, 700), spec_fx_mul(veg_detail, 300));
    let latitude = spec_fx_asin(py);
    let biome_mix = spec_cos01(spec_fx_mul(latitude, 3000));
    let terrain_spiral = spec_fx_abs(spec_fx_mul(
        spec_fx_mul(
            spec_fx_sin(spec_fx_add(spec_fx_mul(px, 7000), spec_fx_mul(time, 1200))),
            spec_fx_cos(spec_fx_add(spec_fx_mul(py, 7000), time)),
        ),
        spec_fx_sin(spec_fx_add(spec_fx_mul(pz, 7000), spec_fx_mul(time, 800))),
    ));
    let line_pattern1 = spec_sin01(spec_fx_add(
        spec_fx_add(spec_fx_mul(px, 10000), spec_fx_mul(pz, 5000)),
        spec_fx_mul(time, 1500),
    ));
    let line_pattern2 = spec_cos01(spec_fx_add(
        spec_fx_add(spec_fx_mul(py, 15000), spec_fx_mul(px, 7000)),
        spec_fx_mul(time, 1200),
    ));
    let river_pattern = spec_fx_abs(uniforms.noise.spec_noise3(
        spec_fx_add(spec_fx_mul(px, 5000), spec_fx_mul(time, 200)),
        spec_fx_mul(py, 5000),
        spec_fx_mul(pz, 5000),
    ));
    let moss_green = Color { r: 98, g: 185, b: 82 };
    let soil_brown = Color { r: 121, g: 85, b: 61 };
    let deep_forest = Color { r: 34, g: 93, b: 44 };
    let misty_fog = Color { r: 180, g: 200, b: 195 };
    let rich_bark = Color { r: 121, g: 85, b: 72 };
    let biolum_blue = Color { r: 64, g: 224, b: 208 };
    let golden_pollen = Color { r: 255, g: 223, b: 128 };
    let purple_fungi = Color { r: 147, g: 112, b: 219 };
    let coral_accent = Color { r: 255, g: 127, b: 80 };
    let mixed = spec_lerp(
        spec_lerp(moss_green, deep_forest, vegetation_pattern),
        soil_brown,
        spec_fx_mul(biome_mix, 400),
    );
    let barked = if terrain_spiral > 400 {
        spec_lerp(mixed, rich_bark, spec_fx_mul(spec_fx_sub(terrain_spiral, 400), 800))
    } else {
        mixed
    };
    let lined1 = if line_pattern1 > 700 {
        spec_lerp(barked, purple_fungi, spec_fx_mul(spec_fx_sub(line_pattern1, 700), 1300))
    } else {
        barked
    };
    let lined2 = if line_pattern2 > 600 {
        spec_lerp(lined1, coral_accent, spec_fx_mul(spec_fx_sub(line_pattern2, 600), 800))
    } else {
        lined1
    };
    let mag = spec_fx_mag(px, py, pz);
    let biolum_pattern = spec_fx_abs(spec_fx_sin(spec_fx_add(spec_fx_mul(mag, 8000), time)));
    let glowing = if biolum_pattern > 800 {
        spec_lerp(lined2, biolum_blue, spec_fx_mul(spec_fx_sub(biolum_pattern, 800), 2000))
    } else {
        lined2
    };
    let pollen = spec_fx_abs(uniforms.noise.spec_noise3(
        spec_fx_add(spec_fx_mul(px, 20000), spec_fx_mul(time, 2000)),
        spec_fx_add(spec_fx_mul(py, 20000), spec_fx_mul(time, 1500)),
        spec_fx_mul(pz, 20000),
    ));
    let pollinated = if pollen > 930 {
        spec_lerp(glowing, golden_pollen, spec_fx_mul(spec_fx_sub(pollen, 930), 15000))
    } else {
        glowing
    };
    let rivered = if river_pattern < 100 {
        let scaled_depth = spec_fx_mul(river_pattern, 10000);
        let water_depth = if scaled_depth < 0 {
            0
        } else {
            scaled_depth
        };
        spec_lerp(pollinated, biolum_blue, spec_fx_sub(1000, water_depth))
    } else {
        pollinated
    };
    let depth_effect = spec_fx_abs(uniforms.noise.spec_noise3(
        spec_fx_add(spec_fx_mul(px, 1800), spec_fx_mul(time, 100)),
        spec_fx_mul(py, 1800),
        spec_fx_mul(pz, 1800),
    ));
    let fog_intensity = spec_fx_add(spec_fx_mul(spec_fx_sin(spec_fx_mul(time, 500)), 100), 300);
    let final_color = spec_lerp(rivered, misty_fog, spec_fx_mul(depth_effect, fog_intensity));
    let height_intensity = spec_fx_add(spec_fx_mul(spec_fx_sin(spec_fx_mul(py, 2000)), 100), 1000);
    spec_scale(spec_scale(final_color, fragment.intensity as int), height_intensity)
}

/// Shade a nature-planet fragment; exactly [`spec_nature_planet_shader`].
pub fn nature_planet_shader<N: NoiseSource>(fragment: &Fragment, uniforms: &Uniforms<N>) -> (r: Color)
    ensures
        r == spec_nature_planet_shader(*fragment, *uniforms),
{
    let position = fragment.vertex_position;
    let time = sat_mul(uniforms.time, 5);

    let moss_green = Color::new(98, 185, 82);
    let soil_brown = Color::new(121, 85, 61);
    let deep_forest = Color::new(34, 93, 44);
    let misty_fog = Color::new(180, 200, 195);
    let rich_bark = Color::new(121, 85, 72);
    let biolum_blue = Color::new(64, 224, 208);
    let golden_pollen = Color::new(255, 223, 128);
    let purple_fungi = Color::new(147, 112, 219);
    let coral_accent = Color::new(255, 127, 80);

    let veg_base = sin01(uniforms.noise.get_noise_3d(
        fx_add(fx_mul(position.x, 3500), fx_mul(time, 800)),
        fx_mul(position.y, 3500),
        fx_mul(position.z, 3500),
    ));
    let veg_detail = sin01(uniforms.noise.get_noise_3d(
        fx_add(fx_mul(position.x, 8000), fx_mul(time, 400)),
        fx_add(fx_mul(position.y, 8000), fx_mul(time, 300)),
        fx_mul(position.z, 8000),
    ));
    let vegetation_pattern = fx_add(fx_mul(veg_base, 700), fx_mul(veg_detail, 300));

    let latitude = fx_asin(position.y);
    let biome_mix = cos01(fx_mul(latitude, 3000));

    let terrain_spiral = fx_abs(fx_mul(
        fx_mul(
            fx_sin(fx_add(fx_mul(position.x, 7000), fx_mul(time, 1200))),
            fx_cos(fx_add(fx_mul(position.y, 7000), time)),
        ),
        fx_sin(fx_add(fx_mul(position.z, 7000), fx_mul(time, 800))),
    ));

    let line_pattern1 = sin01(fx_add(
        fx_add(fx_mul(position.x, 10000), fx_mul(position.z, 5000)),
        fx_mul(time, 1500),
    ));
    let line_pattern2 = cos01(fx_add(
        fx_add(fx_mul(position.y, 15000), fx_mul(position.x, 7000)),
        fx_mul(time, 1200),
    ));

    let river_pattern = fx_abs(uniforms.noise.get_noise_3d(
        fx_add(fx_mul(position.x, 5000), fx_mul(time, 200)),
        fx_mul(position.y, 5000),
        fx_mul(position.z, 5000),
    ));

    let mut final_color = moss_green.lerp(&deep_forest, vegetation_pattern);
    final_color = final_color.lerp(&soil_brown, fx_mul(biome_mix, 400));

    if terrain_spiral > 400 {
        final_color = final_color.lerp(&rich_bark, fx_mul(fx_sub(terrain_spiral, 400), 800));
    }

    if line_pattern1 > 700 {
        final_color = final_color.lerp(&purple_fungi, fx_mul(fx_sub(line_pattern1, 700), 1300));
    }
    if line_pattern2 > 600 {
        final_color = final_color.lerp(&coral_accent, fx_mul(fx_sub(line_pattern2, 600), 800));
    }

    let mag = fx_mag(position.x, position.y, position.z);
    let biolum_pattern = fx_abs(fx_sin(fx_add(fx_mul(mag, 8000), time)));
    if biolum_pattern > 800 {
        final_color = final_color.lerp(&biolum_blue, fx_mul(fx_sub(biolum_pattern, 800), 2000));
    }

    let pollen = fx_abs(uniforms.noise.get_noise_3d(
        fx_add(fx_mul(position.x, 20000), fx_mul(time, 2000)),
        fx_add(fx_mul(position.y, 20000), fx_mul(time, 1500)),
        fx_mul(position.z, 20000),
    ));
    if pollen > 930 {
        final_color = final_color.lerp(&golden_pollen, fx_mul(fx_sub(pollen, 930), 15000));
    }

    if river_pattern < 100 {
        let scaled_depth = fx_mul(river_pattern, 10000);
        let water_depth = if scaled_depth < 0 {
            0
        } else {
            scaled_depth
        };
        final_color = final_color.lerp(&biolum_blue, fx_sub(1000, water_depth));
    }

    let depth_effect = fx_abs(uniforms.noise.get_noise_3d(
        fx_add(fx_mul(position.x, 1800), fx_mul(time, 100)),
        fx_mul(position.y, 1800),
        fx_mul(position.z, 1800),
    ));

    let fog_intensity = fx_add(fx_mul(fx_sin(fx_mul(time, 500)), 100), 300);
    final_color = final_color.lerp(&misty_fog, fx_mul(depth_effect, fog_intensity));

    let height_intensity = fx_add(fx_mul(fx_sin(fx_mul(position.y, 2000)), 100), 1000);
    final_color.scale(fragment.intensity).scale(height_intensity)
}

/// The aurora planet: angular and radial patterns drive stacked overlays
/// (waves, spiral, sparkle, rings, neon curves) with no threshold ladder.
pub open spec fn spec_aurora_planet_shader<N: NoiseSource>(fragment: Fragment, uniforms: Uniforms<N>) -> Color {
    let px = fragment.vertex_position.x as int;
    let py = fragment.vertex_position.y as int;
    let pz = fragment.vertex_position.z as int;
    let time = spec_sat_mul(uniforms.time as int, 10);
    let aurora_base = spec_sin01(uniforms.noise.spec_noise3(
        spec_fx_add(spec_fx_mul(px, 3500), spec_fx_mul(time, 600)),
        spec_fx_add(spec_fx_mul(py, 3500), spec_fx_mul(time, 400)),
        spec_fx_mul(pz, 3500),
    ));
    let aurora_detail = spec_sin01(uniforms.noise.spec_noise3(
        spec_fx_add(spec_fx_mul(px, 8000), spec_fx_mul(time, 300)),
        spec_fx_add(spec_fx_mul(py, 8000), spec_fx_mul(time, 200)),
        spec_fx_mul(pz, 8000),
    ));
    let aurora_pattern = spec_fx_add(spec_fx_mul(aurora_base, 700), spec_fx_mul(aurora_detail, 300));
    let wave_primary = spec_cos01(spec_fx_add(
        spec_fx_add(spec_fx_mul(px, 15000), spec_fx_mul(py, 15000)),
        spec_fx_mul(time, 4000),
    ));
    let wave_secondary = spec_sin01(spec_fx_add(
        spec_fx_sub(spec_fx_mul(px, 25000), spec_fx_mul(py, 25000)),
        spec_fx_mul(time, 3000),
    ));
    let wave_lines = spec_fx_add(spec_fx_mul(wave_primary, 600), spec_fx_mul(wave_secondary, 400));
    let pink_base = Color { r: 255, g: 84, b: 180 };
    let purple_flow = Color { r: 144, g: 97, b: 255 };
    let lavender_mist = Color { r: 210, g: 158, b: 255 };
    let cyan_glow = Color { r: 99, g: 231, b: 255 };
    let deep_blue = Color { r: 2, g: 119, b: 188 };
    let neon_pink = Color { r: 255, g: 20, b: 147 };
    let electric_blue = Color { r: 45, g: 226, b: 230 };
    let golden_glow = Color { r: 255, g: 215, b: 0 };
    let based = spec_lerp(pink_base, purple_flow, aurora_pattern);
    let waved = if wave_lines > 600 {
        spec_lerp(based, cyan_glow, spec_fx_mul(spec_fx_sub(wave_lines, 600), 1800))
    } else {
        based
    };
    let mag = spec_fx_mag(px, py, pz);
    let spiral = spec_fx_mul(
        spec_cos01(spec_fx_add(spec_fx_mul(spec_fx_atan2(px, py), 5000), spec_fx_mul(time, 2000))),
        spec_fx_abs(spec_fx_sin(spec_fx_mul(mag, 4000))),
    );
    let spiraled = if spiral > 700 {
        spec_lerp(waved, electric_blue, spec_fx_mul(spec_fx_sub(spiral, 700), 1500))
    } else {
        waved
    };
    let sparkle = spec_fx_abs(uniforms.noise.spec_noise3(
        spec_fx_add(spec_fx_mul(px, 30000), spec_fx_mul(time, 2000)),
        spec_fx_add(spec_fx_mul(py, 30000), spec_fx_mul(time, 2000)),
        spec_fx_mul(pz, 30000),
    ));
    let sparkled = if sparkle > 950 {
        spec_lerp(spiraled, golden_glow, spec_fx_mul(spec_fx_sub(sparkle, 950), 20000))
    } else {
        spiraled
    };
    let circle_pattern = spec_fx_abs(spec_fx_sin(spec_fx_add(
        spec_fx_mul(mag, 8000),
        spec_fx_mul(time, 1500),
    )));
    let circled = if circle_pattern > 500 {
        spec_lerp(sparkled, lavender_mist, spec_fx_mul(spec_fx_sub(circle_pattern, 500), 1500))
    } else {
        sparkled
    };
    let neon_curve = spec_fx_abs(spec_fx_mul(
        spec_fx_mul(
            spec_fx_sin(spec_fx_add(spec_fx_mul(px, 12000), time)),
            spec_fx_cos(spec_fx_add(spec_fx_mul(py, 12000), time)),
        ),
        spec_fx_sin(spec_fx_add(spec_fx_mul(pz, 12000), spec_fx_mul(time, 500))),
    ));
    let neoned = if neon_curve > 700 {
        spec_lerp(circled, neon_pink, spec_fx_mul(spec_fx_sub(neon_curve, 700), 1800))
    } else {
        circled
    };
    let depth = spec_fx_abs(uniforms.noise.spec_noise3(
        spec_fx_add(spec_fx_mul(px, 2000), spec_fx_mul(time, 100)),
        spec_fx_add(spec_fx_mul(py, 2000), spec_fx_mul(time, 100)),
        spec_fx_mul(pz, 2000),
    ));
    let final_color = spec_lerp(neoned, deep_blue, spec_fx_mul(depth, 500));
    spec_scale(spec_scale(final_color, fragment.intensity as int), 1200)
}

/// Shade an aurora-planet fragment; exactly [`spec_aurora_planet_shader`].
pub fn aurora_planet_shader<N: NoiseSource>(fragment: &Fragment, uniforms: &Uniforms<N>) -> (r: Color)
    ensures
        r == spec_aurora_planet_shader(*fragment, *uniforms),
{
    let position = fragment.vertex_position;
    let time = sat_mul(uniforms.time, 10);

    let pink_base = Color::new(255, 84, 180);
    let purple_flow = Color::new(144, 97, 255);
    let lavender_mist = Color::new(210, 158, 255);
    let cyan_glow = Color::new(99, 231, 255);
    let deep_blue = Color::new(2, 119, 188);
    let neon_pink = Color::new(255, 20, 147);
    let electric_blue = Color::new(45, 226, 230);
    let golden_glow = Color::new(255, 215, 0);

    let aurora_base = sin01(uniforms.noise.get_noise_3d(
        fx_add(fx_mul(position.x, 3500), fx_mul(time, 600)),
        fx_add(fx_mul(position.y, 3500), fx_mul(time, 400)),
        fx_mul(position.z, 3500),
    ));
    let aurora_detail = sin01(uniforms.noise.get_noise_3d(
        fx_add(fx_mul(position.x, 8000), fx_mul(time, 300)),
        fx_add(fx_mul(position.y, 8000), fx_mul(time, 200)),
        fx_mul(position.z, 8000),
    ));
    let aurora_pattern = fx_add(fx_mul(aurora_base, 700), fx_mul(aurora_detail, 300));

    let wave_primary = cos01(fx_add(
        fx_add(fx_mul(position.x, 15000), fx_mul(position.y, 15000)),
        fx_mul(time, 4000),
    ));
    let wave_secondary = sin01(fx_add(
        fx_sub(fx_mul(position.x, 25000), fx_mul(position.y, 25000)),
        fx_mul(time, 3000),
    ));
    let wave_lines = fx_add(fx_mul(wave_primary, 600), fx_mul(wave_secondary, 400));

    let mut final_color = pink_base.lerp(&purple_flow, aurora_pattern);

    if wave_lines > 600 {
        final_color = final_color.lerp(&cyan_glow, fx_mul(fx_sub(wave_lines, 600), 1800));
    }

    let mag = fx_mag(position.x, position.y, position.z);
    let spiral = fx_mul(
        cos01(fx_add(fx_mul(fx_atan2(position.x, position.y), 5000), fx_mul(time, 2000))),
        fx_abs(fx_sin(fx_mul(mag, 4000))),
    );
    if spiral > 700 {
        final_color = final_color.lerp(&electric_blue, fx_mul(fx_sub(spiral, 700), 1500));
    }

    let sparkle = fx_abs(uniforms.noise.get_noise_3d(
        fx_add(fx_mul(position.x, 30000), fx_mul(time, 2000)),
        fx_add(fx_mul(position.y, 30000), fx_mul(time, 2000)),
        fx_mul(position.z, 30000),
    ));
    if sparkle > 950 {
        final_color = final_color.lerp(&golden_glow, fx_mul(fx_sub(sparkle, 950), 20000));
    }

    let circle_pattern = fx_abs(fx_sin(fx_add(fx_mul(mag, 8000), fx_mul(time, 1500))));
    if circle_pattern > 500 {
        final_color = final_color.lerp(&lavender_mist, fx_mul(fx_sub(circle_pattern, 500), 1500));
    }

    let neon_curve = fx_abs(fx_mul(
        fx_mul(
            fx_sin(fx_add(fx_mul(position.x, 12000), time)),
            fx_cos(fx_add(fx_mul(position.y, 12000), time)),
        ),
        fx_sin(fx_add(fx_mul(position.z, 12000), fx_mul(time, 500))),
    ));
    if neon_curve > 700 {
        final_color = final_color.lerp(&neon_pink, fx_mul(fx_sub(neon_curve, 700), 1800));
    }

    let depth = fx_abs(uniforms.noise.get_noise_3d(
        fx_add(fx_mul(position.x, 2000), fx_mul(time, 100)),
        fx_add(fx_mul(position.y, 2000), fx_mul(time, 100)),
        fx_mul(position.z, 2000),
    ));

    final_color = final_color.lerp(&deep_blue, fx_mul(depth, 500));

    final_color.scale(fragment.intensity).scale(1200)
}

/// The color each body kind shades a fragment to: the dispatcher's exact
/// result, one spec mirror per body kind.
pub open spec fn spec_fragment_shader<N: NoiseSource>(fragment: Fragment, uniforms: Uniforms<N>) -> Color {
    match uniforms.current_body {
        CelestialBody::Sun => spec_sun_shader(fragment, uniforms),
        CelestialBody::RockyPlanet => spec_rocky_planet_shader(fragment, uniforms),
        CelestialBody::GasGiant => spec_gas_giant_shader(fragment, uniforms),
        CelestialBody::CloudyPlanet => spec_cloudy_planet_shader(fragment, uniforms),
        CelestialBody::RingedPlanet => spec_ring_shader(fragment, uniforms),
        CelestialBody::IcePlanet => spec_ice_planet_shader(fragment, uniforms),
        CelestialBody::ColorPlanet => spec_colorful_planet_shader(fragment, uniforms),
        CelestialBody::Moon => spec_moon_shader(fragment, uniforms),
        CelestialBody::OceanPlanet => spec_ocean_planet_shader(fragment, uniforms),
        CelestialBody::AuroraPlanet => spec_aurora_planet_shader(fragment, uniforms),
        CelestialBody::NaturePlanet => spec_nature_planet_shader(fragment, uniforms),
    }
}

/// Dispatch a fragment to the surface shader of the active body kind. The
/// match is exhaustive over the closed selector set, so every selector
/// value yields a color for arbitrary fragment and time inputs, and the
/// result is exactly [`spec_fragment_shader`] of the inputs — a pure
/// function, so two calls on identical values return the identical color.
pub fn fragment_shader<N: NoiseSource>(fragment: &Fragment, uniforms: &Uniforms<N>) -> (r: Color)
    ensures
        r == spec_fragment_shader(*fragment, *uniforms),
{
    match uniforms.current_body {
        CelestialBody::Sun => sun_shader(fragment, uniforms),
        CelestialBody::RockyPlanet => rocky_planet_shader(fragment, uniforms),
        CelestialBody::GasGiant => gas_giant_shader(fragment, uniforms),
        CelestialBody::CloudyPlanet => cloudy_planet_shader(fragment, uniforms),
        CelestialBody::RingedPlanet => ring_shader(fragment, uniforms),
        CelestialBody::IcePlanet => ice_planet_shader(fragment, uniforms),
        CelestialBody::ColorPlanet => colorful_planet_shader(fragment, uniforms),
        CelestialBody::Moon => moon_shader(fragment, uniforms),
        CelestialBody::OceanPlanet => ocean_planet_shader(fragment, uniforms),
        CelestialBody::AuroraPlanet => aurora_planet_shader(fragment, uniforms),
        CelestialBody::NaturePlanet => nature_planet_shader(fragment, uniforms),
    }
}

} // verus!
