use planet_render::color::{Color, sat_add};
use planet_render::fixed::{fx_sin, fx_cos, clamp_i64, abs_i64};

#[test]
fn lerp_endpoints_and_midpoint() {
    let a = Color::new(10, 200, 0);
    let b = Color::new(20, 100, 255);
    let at_zero = a.lerp(&b, 0);
    assert_eq!((at_zero.r, at_zero.g, at_zero.b), (10, 200, 0));
    let at_one = a.lerp(&b, 1000);
    assert_eq!((at_one.r, at_one.g, at_one.b), (20, 100, 255));
    let mid = a.lerp(&b, 500);
    // Rising channels truncate toward the lower end, falling channels
    // toward the upper end: 10+5, 200-50, 0+127.
    assert_eq!((mid.r, mid.g, mid.b), (15, 150, 127));
}

#[test]
fn scale_clamps_at_channel_max() {
    let c = Color::new(200, 100, 0);
    let doubled = c.scale(2000);
    assert_eq!((doubled.r, doubled.g, doubled.b), (255, 200, 0));
    let halved = c.scale(500);
    assert_eq!((halved.r, halved.g, halved.b), (100, 50, 0));
}

#[test]
fn sat_add_caps_channels() {
    let c = sat_add(&Color::new(200, 200, 200), &Color::new(100, 1, 0));
    assert_eq!((c.r, c.g, c.b), (255, 201, 200));
}

#[test]
fn pack_and_unpack_round_trip() {
    let c = Color::new(0xAB, 0xCD, 0xEF);
    assert_eq!(c.to_packed(), 0xABCDEF);
    let back = Color::from_packed(0xABCDEF);
    assert_eq!((back.r, back.g, back.b), (0xAB, 0xCD, 0xEF));
}

#[test]
fn fixed_point_trig_anchor_values() {
    assert_eq!(fx_sin(0), 0);
    assert_eq!(fx_sin(1571), 1000);
    assert_eq!(fx_sin(3142), 0);
    assert_eq!(fx_sin(-1571), -1000);
    assert_eq!(fx_cos(0), 1000);
    assert_eq!(fx_cos(3142), -1000);
    assert!(fx_sin(785) > 650 && fx_sin(785) < 750);
}

#[test]
fn clamp_and_abs_helpers() {
    assert_eq!(clamp_i64(5, -3, 3), 3);
    assert_eq!(clamp_i64(-5, -3, 3), -3);
    assert_eq!(clamp_i64(2, -3, 3), 2);
    assert_eq!(abs_i64(-17), 17);
    assert_eq!(abs_i64(17), 17);
}
