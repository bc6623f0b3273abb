use planet_render::framebuffer::Framebuffer;

#[test]
fn new_fills_buffers() {
    let fb = Framebuffer::new(3, 2);
    assert_eq!(fb.width, 3);
    assert_eq!(fb.height, 2);
    assert_eq!(fb.buffer, vec![0u32; 6]);
    assert_eq!(fb.zbuffer, vec![i64::MAX; 6]);
    assert_eq!(fb.emission_buffer, vec![0u32; 6]);
}

#[test]
fn clear_resets_to_background_sentinel_and_zero() {
    let mut fb = Framebuffer::new(2, 2);
    fb.set_background_color(0x112233);
    fb.set_current_color(0xAABBCC);
    fb.set_emission_color(0x010203);
    fb.point(0, 0, 100);
    fb.point(1, 1, 200);
    fb.clear();
    assert_eq!(fb.buffer, vec![0x112233u32; 4]);
    assert_eq!(fb.zbuffer, vec![i64::MAX; 4]);
    assert_eq!(fb.emission_buffer, vec![0u32; 4]);
}

#[test]
fn point_after_clear_always_lands() {
    let mut fb = Framebuffer::new(2, 2);
    fb.clear();
    fb.set_current_color(0x445566);
    fb.set_emission_color(0x000042);
    fb.point(1, 0, i64::MAX - 1);
    assert_eq!(fb.buffer[1], 0x445566);
    assert_eq!(fb.emission_buffer[1], 0x000042);
    assert_eq!(fb.zbuffer[1], i64::MAX - 1);
}

#[test]
fn point_depth_test_nearest_wins_either_order() {
    // Writing d2 then d1 with d1 < d2, or d1 then d2, leaves the d1
    // payload and depth either way.
    let mut fb_a = Framebuffer::new(2, 1);
    fb_a.clear();
    fb_a.set_current_color(0x222222);
    fb_a.set_emission_color(0x000002);
    fb_a.point(0, 0, 500);
    fb_a.set_current_color(0x111111);
    fb_a.set_emission_color(0x000001);
    fb_a.point(0, 0, 200);

    let mut fb_b = Framebuffer::new(2, 1);
    fb_b.clear();
    fb_b.set_current_color(0x111111);
    fb_b.set_emission_color(0x000001);
    fb_b.point(0, 0, 200);
    fb_b.set_current_color(0x222222);
    fb_b.set_emission_color(0x000002);
    fb_b.point(0, 0, 500);

    assert_eq!(fb_a.buffer[0], 0x111111);
    assert_eq!(fb_a.emission_buffer[0], 0x000001);
    assert_eq!(fb_a.zbuffer[0], 200);
    assert_eq!(fb_a.buffer, fb_b.buffer);
    assert_eq!(fb_a.zbuffer, fb_b.zbuffer);
    assert_eq!(fb_a.emission_buffer, fb_b.emission_buffer);
}

#[test]
fn point_farther_write_is_rejected() {
    let mut fb = Framebuffer::new(1, 1);
    fb.clear();
    fb.set_current_color(0x0000FF);
    fb.point(0, 0, 100);
    fb.set_current_color(0x00FF00);
    fb.point(0, 0, 100);
    assert_eq!(fb.buffer[0], 0x0000FF);
    fb.point(0, 0, 5000);
    assert_eq!(fb.buffer[0], 0x0000FF);
    assert_eq!(fb.zbuffer[0], 100);
}

#[test]
fn point_out_of_bounds_changes_nothing() {
    let mut fb = Framebuffer::new(2, 2);
    fb.clear();
    fb.set_current_color(0xDEADBE);
    fb.set_emission_color(0x123456);
    let colors = fb.buffer.clone();
    let depths = fb.zbuffer.clone();
    let emissions = fb.emission_buffer.clone();
    fb.point(2, 0, 10);
    fb.point(0, 2, 10);
    fb.point(999, 999, i64::MIN);
    assert_eq!(fb.buffer, colors);
    assert_eq!(fb.zbuffer, depths);
    assert_eq!(fb.emission_buffer, emissions);
}

#[test]
fn apply_emission_adds_and_is_not_idempotent() {
    // Base blue channel 10 with emission blue channel 20: one pass
    // yields 30, a second pass yields 50, not 30.
    let mut fb = Framebuffer::new(1, 1);
    fb.clear();
    fb.set_current_color(10);
    fb.set_emission_color(20);
    fb.point(0, 0, 1);
    fb.apply_emission();
    assert_eq!(fb.buffer[0], 30);
    fb.apply_emission();
    assert_eq!(fb.buffer[0], 50);
}

#[test]
fn apply_emission_saturates_per_channel() {
    let mut fb = Framebuffer::new(1, 1);
    fb.clear();
    fb.set_current_color(0xF0A010);
    fb.set_emission_color(0x20FF10);
    fb.point(0, 0, 1);
    fb.apply_emission();
    // 0xF0 + 0x20 and 0xA0 + 0xFF saturate at 0xFF; 0x10 + 0x10 = 0x20.
    assert_eq!(fb.buffer[0], 0xFFFF20);
}
