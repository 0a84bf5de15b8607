use planet_shading::color::Color;

#[test]
fn lerp_with_zero_factor_keeps_the_base() {
    let a = Color::new(180, 80, 20);
    let b = Color::new(200, 150, 100);
    assert_eq!(a.lerp(&b, 0), a);
}

#[test]
fn lerp_with_unit_factor_reaches_the_other() {
    let a = Color::new(180, 80, 20);
    let b = Color::new(200, 150, 100);
    assert_eq!(a.lerp(&b, 1000), b);
}

#[test]
fn lerp_at_half_truncates_toward_zero() {
    let a = Color::new(10, 200, 121);
    let b = Color::new(11, 100, 105);
    assert_eq!(a.lerp(&b, 500), Color::new(10, 150, 113));
}

#[test]
fn lerp_overshoot_clamps_at_channel_range() {
    let a = Color::new(200, 0, 0);
    let b = Color::new(255, 10, 0);
    assert_eq!(a.lerp(&b, 2000), Color::new(255, 20, 0));
    let dark = Color::new(0, 0, 0);
    let light = Color::new(255, 255, 255);
    assert_eq!(dark.lerp(&light, -500), Color::new(0, 0, 0));
}

#[test]
fn scale_clamps_instead_of_wrapping() {
    let c = Color::new(200, 100, 0);
    assert_eq!(c.scale(2000), Color::new(255, 200, 0));
    assert_eq!(c.scale(500), Color::new(100, 50, 0));
    assert_eq!(c.scale(-100), Color::new(0, 0, 0));
    assert_eq!(c.scale(1000), c);
}
