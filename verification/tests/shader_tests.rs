use planet_render::color::Color;
use planet_render::linalg::{Vec2Fx, Vec3Fx, Mat4Fx};
use planet_render::shaders::{
    Vertex, Uniforms, Fragment,
    vertex_shader, try_vertex_shader, fragment_shader, mars_shader, moon_shader,
    mars_sample_coords, gas_giant_shader, banded_sphere_shader, emissive_shader,
    star_shader, cloud_shader,
};

fn frag(x: i64, y: i64, z: i64, intensity: i64, color: Color) -> Fragment {
    Fragment { position: Vec3Fx { x, y, z }, depth: 0, intensity, color }
}

fn uniforms(is_mars: bool, is_moon: bool) -> Uniforms {
    Uniforms {
        model_matrix: Mat4Fx::identity(),
        view_matrix: Mat4Fx::identity(),
        projection_matrix: Mat4Fx::identity(),
        viewport_matrix: Mat4Fx::identity(),
        time: 0,
        is_mars,
        is_moon,
    }
}

fn vertex_at(position: Vec3Fx, normal: Vec3Fx) -> Vertex {
    Vertex {
        position,
        normal,
        tex_coords: Vec2Fx { x: 0, y: 0 },
        color: Color::new(1, 2, 3),
        transformed_position: Vec3Fx { x: 0, y: 0, z: 0 },
        transformed_normal: Vec3Fx { x: 0, y: 0, z: 0 },
    }
}

#[test]
fn mars_noise_below_first_stop_is_deep_red() {
    // Noise -0.5 selects color stop 1 exactly (before intensity).
    let f = frag(0, 0, 0, 1000, Color::new(9, 9, 9));
    let c = mars_shader(&f, &uniforms(true, false), -500);
    assert_eq!((c.r, c.g, c.b), (139, 0, 0));
}

#[test]
fn mars_noise_zero_is_halfway_stop1_stop2() {
    // Noise 0.0 is the exact midpoint of stops (139,0,0) and (165,42,42).
    let f = frag(0, 0, 0, 1000, Color::new(9, 9, 9));
    let c = mars_shader(&f, &uniforms(true, false), 0);
    assert_eq!((c.r, c.g, c.b), (152, 21, 21));
}

#[test]
fn mars_noise_point_six_is_halfway_stop2_stop3() {
    // Noise 0.6 is the midpoint of stops (165,42,42) and (178,34,34),
    // with truncating channel interpolation.
    let f = frag(0, 0, 0, 1000, Color::new(9, 9, 9));
    let c = mars_shader(&f, &uniforms(true, false), 600);
    assert_eq!((c.r, c.g, c.b), (171, 38, 38));
}

#[test]
fn mars_intensity_scales() {
    let f = frag(0, 0, 0, 500, Color::new(9, 9, 9));
    let c = mars_shader(&f, &uniforms(true, false), -500);
    assert_eq!((c.r, c.g, c.b), (69, 0, 0));
}

#[test]
fn mars_sample_coords_zoom_fifteen() {
    let f = frag(-100, 200, 1000, 1000, Color::new(0, 0, 0));
    let p = mars_sample_coords(&f);
    assert_eq!((p.x, p.y, p.z), (-1500, 3000, 15000));
}

#[test]
fn moon_is_gray_scaled_by_intensity() {
    let f = frag(0, 0, 0, 500, Color::new(9, 9, 9));
    let c = moon_shader(&f, &uniforms(false, true));
    assert_eq!((c.r, c.g, c.b), (84, 84, 84));
}

#[test]
fn fragment_shader_dispatches_on_flags() {
    let f = frag(0, 0, 0, 1000, Color::new(7, 8, 9));
    let mars = fragment_shader(&f, &uniforms(true, false), -500);
    assert_eq!((mars.r, mars.g, mars.b), (139, 0, 0));
    let moon = fragment_shader(&f, &uniforms(false, true), -500);
    assert_eq!((moon.r, moon.g, moon.b), (169, 169, 169));
    let fallback = fragment_shader(&f, &uniforms(false, false), -500);
    assert_eq!((fallback.r, fallback.g, fallback.b), (7, 8, 9));
}

#[test]
fn banded_sphere_origin_hits_stripe() {
    // 0 mod 0.3 is 0, below any positive thickness: the line color
    // must come back, not the base color.
    let f = frag(0, 0, 0, 1000, Color::new(200, 120, 40));
    let c = banded_sphere_shader(&f, 100);
    assert_eq!((c.r, c.g, c.b), (30, 30, 30));
}

#[test]
fn banded_sphere_between_stripes_keeps_base() {
    // abs(0.15) mod 0.3 = 0.15, above a thickness of 0.1 on both axes.
    let f = frag(150, -150, 0, 1000, Color::new(200, 120, 40));
    let c = banded_sphere_shader(&f, 100);
    assert_eq!((c.r, c.g, c.b), (200, 120, 40));
}

#[test]
fn gas_giant_gradient_and_intensity() {
    let mid = gas_giant_shader(&frag(0, 0, 0, 1000, Color::new(0, 0, 0)));
    assert_eq!((mid.r, mid.g, mid.b), (135, 191, 195));
    let bottom = gas_giant_shader(&frag(0, -1000, 0, 1000, Color::new(0, 0, 0)));
    assert_eq!((bottom.r, bottom.g, bottom.b), (95, 158, 160));
    let top_dim = gas_giant_shader(&frag(0, 1000, 0, 500, Color::new(0, 0, 0)));
    assert_eq!((top_dim.r, top_dim.g, top_dim.b), (88, 112, 115));
}

#[test]
fn emissive_blends_toward_brightened_core() {
    let c = emissive_shader(&frag(0, 0, 0, 500, Color::new(100, 100, 100)));
    assert_eq!((c.r, c.g, c.b), (239, 118, 46));
}

#[test]
fn star_overbrightens_and_clamps() {
    let c = star_shader(&frag(0, 0, 0, 1000, Color::new(0, 0, 0)), true);
    assert_eq!((c.r, c.g, c.b), (255, 255, 180));
    let off = star_shader(&frag(0, 0, 0, 1000, Color::new(5, 6, 7)), false);
    assert_eq!((off.r, off.g, off.b), (5, 6, 7));
}

#[test]
fn cloud_shader_wave_and_noise() {
    // At the origin the wave term is zero, so a zero noise sample gives
    // pure base gradient color.
    let clear_sky = cloud_shader(&frag(0, 0, 0, 1000, Color::new(0, 0, 0)), 0);
    assert_eq!((clear_sky.r, clear_sky.g, clear_sky.b), (60, 115, 185));
    // Full positive noise gives opacity 0.6: base blended toward cover.
    let cloudy = cloud_shader(&frag(0, 0, 0, 1000, Color::new(0, 0, 0)), 1000);
    assert_eq!((cloudy.r, cloudy.g, cloudy.b), (171, 193, 221));
    // Full negative noise drives the opacity to zero.
    let dark = cloud_shader(&frag(0, 0, 0, 1000, Color::new(0, 0, 0)), -1000);
    assert_eq!((dark.r, dark.g, dark.b), (60, 115, 185));
}

#[test]
fn vertex_shader_identity_keeps_origin_and_normal() {
    // Identity matrices, vertex at the origin, homogeneous w = 1: the
    // screen position is the origin and the normal is untouched.
    let v = vertex_at(Vec3Fx { x: 0, y: 0, z: 0 }, Vec3Fx { x: 100, y: -250, z: 1000 });
    let out = vertex_shader(&v, &uniforms(false, false));
    assert_eq!((out.transformed_position.x, out.transformed_position.y, out.transformed_position.z), (0, 0, 0));
    assert_eq!(
        (out.transformed_normal.x, out.transformed_normal.y, out.transformed_normal.z),
        (100, -250, 1000)
    );
    assert_eq!(out.position, v.position);
    assert_eq!(out.normal, v.normal);
    assert_eq!(out.color, v.color);
}

#[test]
fn vertex_shader_viewport_offset_moves_screen_position() {
    let mut u = uniforms(false, false);
    u.viewport_matrix.m03 = 400000;
    u.viewport_matrix.m13 = 300000;
    let v = vertex_at(Vec3Fx { x: 1000, y: 0, z: 0 }, Vec3Fx { x: 0, y: 0, z: 1000 });
    let out = vertex_shader(&v, &u);
    assert_eq!((out.transformed_position.x, out.transformed_position.y), (401000, 300000));
}

#[test]
fn vertex_shader_singular_model_falls_back_to_identity_normal() {
    // A model matrix that flattens z has a singular 3x3 block: the
    // normal matrix falls back to the identity and the normal survives.
    let mut u = uniforms(false, false);
    u.model_matrix.m22 = 0;
    let v = vertex_at(Vec3Fx { x: 500, y: 500, z: 500 }, Vec3Fx { x: 0, y: 0, z: 777 });
    let out = vertex_shader(&v, &u);
    assert_eq!((out.transformed_normal.x, out.transformed_normal.y, out.transformed_normal.z), (0, 0, 777));
    // The position still loses its z through the flattening.
    assert_eq!(out.transformed_position.z, 0);
}

#[test]
fn try_vertex_shader_rejects_degenerate_w() {
    let mut u = uniforms(false, false);
    // A projection with a zero bottom row forces clip w to zero.
    u.projection_matrix.m30 = 0;
    u.projection_matrix.m31 = 0;
    u.projection_matrix.m32 = 0;
    u.projection_matrix.m33 = 0;
    let v = vertex_at(Vec3Fx { x: 0, y: 0, z: 0 }, Vec3Fx { x: 0, y: 0, z: 1000 });
    assert!(try_vertex_shader(&v, &u).is_none());
}

#[test]
fn try_vertex_shader_accepts_ordinary_input() {
    let v = vertex_at(Vec3Fx { x: 250, y: -250, z: 500 }, Vec3Fx { x: 0, y: 1000, z: 0 });
    let out = try_vertex_shader(&v, &uniforms(false, false)).unwrap();
    assert_eq!(
        (out.transformed_position.x, out.transformed_position.y, out.transformed_position.z),
        (250, -250, 500)
    );
}
