use planet_shading::fixed::{clamp_unit, fx_abs, fx_add, fx_div, fx_mul, fx_sub, sat_mul, FX_ONE};
use planet_shading::trig::{fx_asin, fx_atan2, fx_cos, fx_mag, fx_sin, FX_HALF_PI, FX_PI};

#[test]
fn fixed_one_is_thousandths() {
    assert_eq!(FX_ONE, 1000);
}

#[test]
fn add_and_sub_saturate() {
    assert_eq!(fx_add(2, 3), 5);
    assert_eq!(fx_add(i64::MAX, 1), i64::MAX);
    assert_eq!(fx_add(i64::MIN, -1), i64::MIN);
    assert_eq!(fx_sub(i64::MIN, 1), i64::MIN);
    assert_eq!(fx_sub(i64::MAX, -1), i64::MAX);
    assert_eq!(fx_sub(5, 7), -2);
}

#[test]
fn mul_rescales_and_truncates_toward_zero() {
    assert_eq!(fx_mul(500, 500), 250);
    assert_eq!(fx_mul(-500, 500), -250);
    assert_eq!(fx_mul(999, 1), 0);
    assert_eq!(fx_mul(-999, 1), 0);
    assert_eq!(fx_mul(1000, 123456), 123456);
    assert_eq!(fx_mul(0, i64::MAX), 0);
    assert_eq!(fx_mul(i64::MAX, 2000), i64::MAX);
    assert_eq!(fx_mul(i64::MIN, 2000), i64::MIN);
}

#[test]
fn div_rescales_and_is_total() {
    assert_eq!(fx_div(1000, 3000), 333);
    assert_eq!(fx_div(-1000, 3000), -333);
    assert_eq!(fx_div(1000, -3000), -333);
    assert_eq!(fx_div(2000, 2000), 1000);
    assert_eq!(fx_div(12345, 0), 0);
}

#[test]
fn abs_and_clamp() {
    assert_eq!(fx_abs(-250), 250);
    assert_eq!(fx_abs(250), 250);
    assert_eq!(fx_abs(i64::MIN), i64::MAX);
    assert_eq!(clamp_unit(1500), 1000);
    assert_eq!(clamp_unit(-1500), -1000);
    assert_eq!(clamp_unit(77), 77);
}

#[test]
fn sat_mul_scales_time() {
    assert_eq!(sat_mul(123, 10), 1230);
    assert_eq!(sat_mul(-7, 5), -35);
    assert_eq!(sat_mul(i64::MAX, 2), i64::MAX);
}

#[test]
fn sine_hits_exact_anchor_points() {
    assert_eq!(fx_sin(0), 0);
    assert_eq!(fx_sin(FX_HALF_PI), 1000);
    assert_eq!(fx_sin(FX_PI), 0);
    assert_eq!(fx_sin(FX_PI + FX_HALF_PI), -1000);
    assert_eq!(fx_sin(-FX_HALF_PI), -1000);
    assert_eq!(fx_sin(2 * FX_PI), 0);
    assert_eq!(fx_cos(0), 1000);
    assert_eq!(fx_cos(FX_HALF_PI), 0);
}

#[test]
fn sine_stays_in_unit_range() {
    let mut x: i64 = -40000;
    while x <= 40000 {
        let s = fx_sin(x);
        assert!(-1000 <= s && s <= 1000);
        x += 137;
    }
}

#[test]
fn arcsine_hits_exact_anchor_points() {
    assert_eq!(fx_asin(0), 0);
    assert_eq!(fx_asin(1000), FX_HALF_PI);
    assert_eq!(fx_asin(-1000), -FX_HALF_PI);
    assert_eq!(fx_asin(5000), FX_HALF_PI);
}

#[test]
fn atan2_hits_axis_angles() {
    assert_eq!(fx_atan2(0, 0), 0);
    assert_eq!(fx_atan2(0, 1000), 0);
    assert_eq!(fx_atan2(1000, 0), FX_HALF_PI);
    assert_eq!(fx_atan2(-1000, 0), -FX_HALF_PI);
    assert_eq!(fx_atan2(0, -1000), FX_PI);
}

#[test]
fn magnitude_is_the_integer_root() {
    assert_eq!(fx_mag(0, 0, 0), 0);
    assert_eq!(fx_mag(3000, 4000, 0), 5000);
    assert_eq!(fx_mag(-3000, 0, 4000), 5000);
    assert_eq!(fx_mag(1000, 1000, 1000), 1732);
    assert_eq!(fx_mag(i64::MAX, i64::MAX, i64::MAX), i64::MAX);
}
