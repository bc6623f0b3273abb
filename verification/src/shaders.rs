//! The shading pipeline: the per-vertex geometric transform and the
//! closed set of per-fragment material shaders.
//!
//! Coordinates, depths, intensities and noise samples are milli-unit
//! fixed-point integers. The coherent-noise provider is an external
//! collaborator: shaders that need a noise sample take it as a plain
//! milli-unit argument in roughly `[-1, 1]`, and a helper states the
//! coordinates the sample must be taken at.

use vstd::prelude::*;

use crate::color::{Color, spec_lerp_channel, spec_scale_channel};
use crate::fixed::{divt, iabs, spec_clamp, spec_sin, spec_cos, divt_i128, abs_i64, fx_sin, fx_cos};
use crate::linalg::{
    Vec2Fx, Vec3Fx, Vec4Fx, Mat4Fx,
    spec_row4, spec_row3, spec_inv3_or_identity, spec_upper_left_transposed,
    mat4_apply, mat3_apply, invert3_or_identity, upper_left_transposed,
};

verus! {

/// The largest magnitude allowed of a model, view or projection matrix
/// entry: one hundred real units.
pub const MAT_BOUND: i64 = 100000;

/// The largest magnitude allowed of a viewport matrix entry: ten
/// thousand real units, enough for any realistic pixel target.
pub const VIEWPORT_BOUND: i64 = 10000000;

/// The largest magnitude allowed of an object-space vertex coordinate
/// or normal component: one hundred real units.
pub const COORD_BOUND: i64 = 100000;

/// The largest magnitude allowed of a normalized device coordinate
/// after the perspective divide.
pub const NDC_BOUND: i64 = 10000000;

/// A mesh vertex. The transformed fields are meaningful only after the
/// vertex shader has produced them.
#[derive(Clone, Copy, PartialEq, Eq, Structural, Debug)]
pub struct Vertex {
    pub position: Vec3Fx,
    pub normal: Vec3Fx,
    pub tex_coords: Vec2Fx,
    pub color: Color,
    pub transformed_position: Vec3Fx,
    pub transformed_normal: Vec3Fx,
}

impl Vertex {
    /// Object-space position and normal are within the coordinate range
    /// the transform arithmetic is sized for.
    pub open spec fn wf(self) -> bool {
        &&& self.position.bounded(COORD_BOUND as int)
        &&& self.normal.bounded(COORD_BOUND as int)
    }
}

/// The read-only per-draw-call bundle: transform matrices, elapsed
/// time, and the material selection flags.
#[derive(Clone, Copy, PartialEq, Eq, Structural, Debug)]
pub struct Uniforms {
    pub model_matrix: Mat4Fx,
    pub view_matrix: Mat4Fx,
    pub projection_matrix: Mat4Fx,
    pub viewport_matrix: Mat4Fx,
    pub time: i64,
    pub is_mars: bool,
    pub is_moon: bool,
}

impl Uniforms {
    /// Matrix entries are within the range the transform arithmetic is
    /// sized for.
    pub open spec fn wf(self) -> bool {
        &&& self.model_matrix.bounded(MAT_BOUND as int)
        &&& self.view_matrix.bounded(MAT_BOUND as int)
        &&& self.projection_matrix.bounded(MAT_BOUND as int)
        &&& self.viewport_matrix.bounded(VIEWPORT_BOUND as int)
    }
}

/// A per-pixel attribute bundle from the rasterizer: a local-space
/// position in roughly `[-1, 1]` per axis, a depth (smaller is nearer),
/// a lighting intensity in `[0, 1]`, and a base color.
#[derive(Clone, Copy, PartialEq, Eq, Structural, Debug)]
pub struct Fragment {
    pub position: Vec3Fx,
    pub depth: i64,
    pub intensity: i64,
    pub color: Color,
}

impl Fragment {
    pub open spec fn wf(self) -> bool {
        &&& self.position.bounded(1000)
        &&& 0 <= self.intensity <= 1000
    }
}

/// A fixed-point 4x4 matrix applied to a homogeneous column, written
/// over mathematical integers.
pub open spec fn spec_apply4(m: Mat4Fx, x: int, y: int, z: int, w: int) -> (int, int, int, int) {
    (
        spec_row4(m.m00 as int, m.m01 as int, m.m02 as int, m.m03 as int, x, y, z, w),
        spec_row4(m.m10 as int, m.m11 as int, m.m12 as int, m.m13 as int, x, y, z, w),
        spec_row4(m.m20 as int, m.m21 as int, m.m22 as int, m.m23 as int, x, y, z, w),
        spec_row4(m.m30 as int, m.m31 as int, m.m32 as int, m.m33 as int, x, y, z, w),
    )
}

/// Clip-space coordinates of an object-space position: the homogeneous
/// position run through model, then view, then projection.
pub open spec fn spec_clip(u: Uniforms, p: Vec3Fx) -> (int, int, int, int) {
    let a = spec_apply4(u.model_matrix, p.x as int, p.y as int, p.z as int, 1000);
    let b = spec_apply4(u.view_matrix, a.0, a.1, a.2, a.3);
    spec_apply4(u.projection_matrix, b.0, b.1, b.2, b.3)
}

/// Normalized device coordinates: clip coordinates divided by the
/// clip-space w (which the caller must keep away from zero).
pub open spec fn spec_ndc(u: Uniforms, p: Vec3Fx) -> (int, int, int) {
    let c = spec_clip(u, p);
    (divt(c.0 * 1000, c.3), divt(c.1 * 1000, c.3), divt(c.2 * 1000, c.3))
}

/// Screen-space position: device coordinates mapped by the viewport.
pub open spec fn spec_screen(u: Uniforms, p: Vec3Fx) -> (int, int, int) {
    let n = spec_ndc(u, p);
    let s = spec_apply4(u.viewport_matrix, n.0, n.1, n.2, 1000);
    (s.0, s.1, s.2)
}

/// The world-space normal: the object normal taken through the inverse
/// of the transposed upper-left model block, with an identity fallback
/// when that block is singular.
pub open spec fn spec_transformed_normal(u: Uniforms, n: Vec3Fx) -> (int, int, int) {
    let t = spec_upper_left_transposed(u.model_matrix);
    (
        spec_row3(spec_inv3_or_identity(t, 0, 0), spec_inv3_or_identity(t, 0, 1), spec_inv3_or_identity(t, 0, 2), n.x as int, n.y as int, n.z as int),
        spec_row3(spec_inv3_or_identity(t, 1, 0), spec_inv3_or_identity(t, 1, 1), spec_inv3_or_identity(t, 1, 2), n.x as int, n.y as int, n.z as int),
        spec_row3(spec_inv3_or_identity(t, 2, 0), spec_inv3_or_identity(t, 2, 1), spec_inv3_or_identity(t, 2, 2), n.x as int, n.y as int, n.z as int),
    )
}

/// The per-vertex geometric transform: screen-space position through
/// projection, view, model and viewport; world-space normal through the
/// normal matrix. Every input field is kept.
///
/// A zero clip-space w is a caller precondition, as is a perspective
/// divide that lands within the device-coordinate range: the transform
/// composition must not be degenerate for any rendered vertex.
pub fn vertex_shader(vertex: &Vertex, uniforms: &Uniforms) -> (out: Vertex)
    requires
        vertex.wf(),
        uniforms.wf(),
        spec_clip(*uniforms, vertex.position).3 != 0,
        iabs(spec_ndc(*uniforms, vertex.position).0) <= NDC_BOUND as int,
        iabs(spec_ndc(*uniforms, vertex.position).1) <= NDC_BOUND as int,
        iabs(spec_ndc(*uniforms, vertex.position).2) <= NDC_BOUND as int,
    ensures
        out.position == vertex.position,
        out.normal == vertex.normal,
        out.tex_coords == vertex.tex_coords,
        out.color == vertex.color,
        (out.transformed_position.x as int, out.transformed_position.y as int, out.transformed_position.z as int)
            == spec_screen(*uniforms, vertex.position),
        (out.transformed_normal.x as int, out.transformed_normal.y as int, out.transformed_normal.z as int)
            == spec_transformed_normal(*uniforms, vertex.normal),
{
    let hom = Vec4Fx { x: vertex.position.x, y: vertex.position.y, z: vertex.position.z, w: 1000 };
    let a = mat4_apply(&uniforms.model_matrix, &hom, Ghost(100000int), Ghost(100000int));
    let b = mat4_apply(&uniforms.view_matrix, &a, Ghost(100000int), Ghost(40000000int));
    let c = mat4_apply(&uniforms.projection_matrix, &b, Ghost(100000int), Ghost(16000000000int));
    proof {
        assert((c.x as int, c.y as int, c.z as int, c.w as int) == spec_clip(*uniforms, vertex.position));
    }
    let w: i64 = c.w;
    let nx: i64 = divt_i128((c.x as i128) * 1000, w as i128) as i64;
    let ny: i64 = divt_i128((c.y as i128) * 1000, w as i128) as i64;
    let nz: i64 = divt_i128((c.z as i128) * 1000, w as i128) as i64;
    proof {
        assert((nx as int, ny as int, nz as int) == spec_ndc(*uniforms, vertex.position));
    }
    let ndc = Vec4Fx { x: nx, y: ny, z: nz, w: 1000 };
    let s = mat4_apply(&uniforms.viewport_matrix, &ndc, Ghost(10000000int), Ghost(10000000int));

    let t3 = upper_left_transposed(&uniforms.model_matrix);
    let nm = invert3_or_identity(&t3, Ghost(100000int));
    let tn = mat3_apply(&nm, &vertex.normal, Ghost(20000000000000000int), Ghost(100000int));

    Vertex {
        position: vertex.position,
        normal: vertex.normal,
        tex_coords: vertex.tex_coords,
        color: vertex.color,
        transformed_position: Vec3Fx { x: s.x, y: s.y, z: s.z },
        transformed_normal: tn,
    }
}

/// The total version of the vertex transform: it tests the degeneracy
/// preconditions itself and reports an untransformable vertex as `None`
/// instead of relying on the caller.
pub fn try_vertex_shader(vertex: &Vertex, uniforms: &Uniforms) -> (out: Option<Vertex>)
    requires
        vertex.wf(),
        uniforms.wf(),
    ensures
        out is Some <==> {
            &&& spec_clip(*uniforms, vertex.position).3 != 0
            &&& iabs(spec_ndc(*uniforms, vertex.position).0) <= NDC_BOUND as int
            &&& iabs(spec_ndc(*uniforms, vertex.position).1) <= NDC_BOUND as int
            &&& iabs(spec_ndc(*uniforms, vertex.position).2) <= NDC_BOUND as int
        },
        out is Some ==> {
            &&& out->Some_0.position == vertex.position
            &&& out->Some_0.normal == vertex.normal
            &&& out->Some_0.tex_coords == vertex.tex_coords
            &&& out->Some_0.color == vertex.color
            &&& (out->Some_0.transformed_position.x as int, out->Some_0.transformed_position.y as int, out->Some_0.transformed_position.z as int)
                == spec_screen(*uniforms, vertex.position)
            &&& (out->Some_0.transformed_normal.x as int, out->Some_0.transformed_normal.y as int, out->Some_0.transformed_normal.z as int)
                == spec_transformed_normal(*uniforms, vertex.normal)
        },
{
    let hom = Vec4Fx { x: vertex.position.x, y: vertex.position.y, z: vertex.position.z, w: 1000 };
    let a = mat4_apply(&uniforms.model_matrix, &hom, Ghost(100000int), Ghost(100000int));
    let b = mat4_apply(&uniforms.view_matrix, &a, Ghost(100000int), Ghost(40000000int));
    let c = mat4_apply(&uniforms.projection_matrix, &b, Ghost(100000int), Ghost(16000000000int));
    proof {
        assert((c.x as int, c.y as int, c.z as int, c.w as int) == spec_clip(*uniforms, vertex.position));
    }
    if c.w == 0 {
        return None;
    }
    let nx: i64 = divt_i128((c.x as i128) * 1000, c.w as i128) as i64;
    let ny: i64 = divt_i128((c.y as i128) * 1000, c.w as i128) as i64;
    let nz: i64 = divt_i128((c.z as i128) * 1000, c.w as i128) as i64;
    proof {
        assert((nx as int, ny as int, nz as int) == spec_ndc(*uniforms, vertex.position));
    }
    if abs_i64(nx) > NDC_BOUND || abs_i64(ny) > NDC_BOUND || abs_i64(nz) > NDC_BOUND {
        return None;
    }
    Some(vertex_shader(vertex, uniforms))
}

/// The first rocky color stop: deep red.
pub open spec fn spec_mars_stop1() -> (int, int, int) {
    (139, 0, 0)
}

/// The second rocky color stop: reddish brown.
pub open spec fn spec_mars_stop2() -> (int, int, int) {
    (165, 42, 42)
}

/// The third rocky color stop: lighter red.
pub open spec fn spec_mars_stop3() -> (int, int, int) {
    (178, 34, 34)
}

/// The rocky-surface color before intensity scaling: stop 1 below a
/// noise of -0.2; stop 1 blended to stop 2 across [-0.2, 0.2); stop 2
/// blended to stop 3 across the remaining span up to 1.
pub open spec fn spec_mars_base(n: int) -> (int, int, int) {
    let s1 = spec_mars_stop1();
    let s2 = spec_mars_stop2();
    let s3 = spec_mars_stop3();
    if n < -200 {
        s1
    } else if n < 200 {
        let t = (n + 200) * 1000 / 400;
        (
            spec_lerp_channel(s1.0, s2.0, t),
            spec_lerp_channel(s1.1, s2.1, t),
            spec_lerp_channel(s1.2, s2.2, t),
        )
    } else {
        let t = (n - 200) * 1000 / 800;
        (
            spec_lerp_channel(s2.0, s3.0, t),
            spec_lerp_channel(s2.1, s3.1, t),
            spec_lerp_channel(s2.2, s3.2, t),
        )
    }
}

/// The rocky-surface color after intensity scaling.
pub open spec fn spec_mars_channels(n: int, intensity: int) -> (int, int, int) {
    let base = spec_mars_base(n);
    (
        spec_scale_channel(base.0, intensity),
        spec_scale_channel(base.1, intensity),
        spec_scale_channel(base.2, intensity),
    )
}

/// The coordinates the rocky shader samples 3D noise at: the fragment
/// position under a zoom of 15 with no offset.
pub fn mars_sample_coords(fragment: &Fragment) -> (r: Vec3Fx)
    requires
        fragment.wf(),
    ensures
        r.x == 15 * fragment.position.x,
        r.y == 15 * fragment.position.y,
        r.z == 15 * fragment.position.z,
{
    Vec3Fx {
        x: 15 * fragment.position.x,
        y: 15 * fragment.position.y,
        z: 15 * fragment.position.z,
    }
}

/// The rocky (Mars-like) surface: three color stops blended by the 3D
/// noise sample taken at [`mars_sample_coords`], then intensity-scaled.
pub fn mars_shader(fragment: &Fragment, _uniforms: &Uniforms, noise_value: i64) -> (c: Color)
    requires
        fragment.wf(),
        -1000 <= noise_value <= 1000,
    ensures
        (c.r as int, c.g as int, c.b as int) == spec_mars_channels(noise_value as int, fragment.intensity as int),
{
    let deep_red = Color::new(139, 0, 0);
    let reddish_brown = Color::new(165, 42, 42);
    let lighter_red = Color::new(178, 34, 34);

    let base: Color = if noise_value < -200 {
        deep_red
    } else if noise_value < 200 {
        let t: i64 = (noise_value + 200) * 1000 / 400;
        deep_red.lerp(&reddish_brown, t)
    } else {
        let t: i64 = (noise_value - 200) * 1000 / 800;
        reddish_brown.lerp(&lighter_red, t)
    };
    base.scale(fragment.intensity)
}

/// The flat moon color before intensity scaling: a light gray.
pub open spec fn spec_moon_channels(intensity: int) -> (int, int, int) {
    (
        spec_scale_channel(169, intensity),
        spec_scale_channel(169, intensity),
        spec_scale_channel(169, intensity),
    )
}

/// The flat moon surface: constant gray scaled by intensity.
pub fn moon_shader(fragment: &Fragment, _uniforms: &Uniforms) -> (c: Color)
    requires
        fragment.wf(),
    ensures
        (c.r as int, c.g as int, c.b as int) == spec_moon_channels(fragment.intensity as int),
{
    let base_gray = Color::new(169, 169, 169);
    base_gray.scale(fragment.intensity)
}

/// What the material dispatch returns: the rocky shader under the Mars
/// flag, the flat gray under the moon flag, else the fragment's own
/// base color untouched.
pub open spec fn spec_fragment_channels(u: Uniforms, f: Fragment, n: int) -> (int, int, int) {
    if u.is_mars {
        spec_mars_channels(n, f.intensity as int)
    } else if u.is_moon {
        spec_moon_channels(f.intensity as int)
    } else {
        (f.color.r as int, f.color.g as int, f.color.b as int)
    }
}

/// The material dispatch over the per-draw flags. The noise sample is
/// consulted only by the rocky branch.
pub fn fragment_shader(fragment: &Fragment, uniforms: &Uniforms, noise_value: i64) -> (c: Color)
    requires
        fragment.wf(),
        -1000 <= noise_value <= 1000,
    ensures
        (c.r as int, c.g as int, c.b as int) == spec_fragment_channels(*uniforms, *fragment, noise_value as int),
{
    if uniforms.is_mars {
        mars_shader(fragment, uniforms, noise_value)
    } else if uniforms.is_moon {
        moon_shader(fragment, uniforms)
    } else {
        fragment.color
    }
}

/// A vertical coordinate in `[-1, 1]` clamped and remapped to a blend
/// factor in `[0, 1]`.
pub open spec fn spec_vertical_t(y: int) -> int {
    (spec_clamp(y, -1000, 1000) + 1000) / 2
}

fn vertical_t(y: i64) -> (t: i64)
    requires
        -1000000 <= y <= 1000000,
    ensures
        t == spec_vertical_t(y as int),
        0 <= t <= 1000,
{
    let cl: i64 = crate::fixed::clamp_i64(y, -1000, 1000);
    (cl + 1000) / 2
}

/// The deep gas-giant band color.
pub open spec fn spec_gas_deep() -> (int, int, int) {
    (95, 158, 160)
}

/// The pale gas-giant band color.
pub open spec fn spec_gas_pale() -> (int, int, int) {
    (176, 224, 230)
}

/// The gas-giant gradient color: the two fixed band colors blended by
/// the remapped vertical coordinate, then intensity-scaled.
pub open spec fn spec_gas_giant_channels(y: int, intensity: int) -> (int, int, int) {
    let t = spec_vertical_t(y);
    let deep = spec_gas_deep();
    let pale = spec_gas_pale();
    (
        spec_scale_channel(spec_lerp_channel(deep.0, pale.0, t), intensity),
        spec_scale_channel(spec_lerp_channel(deep.1, pale.1, t), intensity),
        spec_scale_channel(spec_lerp_channel(deep.2, pale.2, t), intensity),
    )
}

/// The gas-giant material: a vertical gradient between two fixed
/// colors, scaled by the fragment intensity.
pub fn gas_giant_shader(fragment: &Fragment) -> (c: Color)
    requires
        fragment.wf(),
    ensures
        (c.r as int, c.g as int, c.b as int) == spec_gas_giant_channels(fragment.position.y as int, fragment.intensity as int),
{
    let deep = Color::new(95, 158, 160);
    let pale = Color::new(176, 224, 230);
    let t: i64 = vertical_t(fragment.position.y);
    deep.lerp(&pale, t).scale(fragment.intensity)
}

/// The banded-sphere line color.
pub open spec fn spec_band_line() -> (int, int, int) {
    (30, 30, 30)
}

/// Whether a banded-sphere fragment lies on a stripe: either axis
/// coordinate, taken absolute, falls below `thickness` modulo 0.3.
pub open spec fn spec_on_stripe(x: int, y: int, thickness: int) -> bool {
    iabs(x) % 300 < thickness || iabs(y) % 300 < thickness
}

/// The banded-sphere material: two periodic stripe tests; a hit paints
/// the line color, a miss keeps the fragment's base color. Flat shaded:
/// no intensity scaling.
pub fn banded_sphere_shader(fragment: &Fragment, thickness: i64) -> (c: Color)
    requires
        fragment.wf(),
        0 < thickness,
    ensures
        spec_on_stripe(fragment.position.x as int, fragment.position.y as int, thickness as int)
            ==> (c.r as int, c.g as int, c.b as int) == spec_band_line(),
        !spec_on_stripe(fragment.position.x as int, fragment.position.y as int, thickness as int)
            ==> c == fragment.color,
{
    let ax: i64 = abs_i64(fragment.position.x);
    let ay: i64 = abs_i64(fragment.position.y);
    if ax % 300 < thickness || ay % 300 < thickness {
        Color::new(30, 30, 30)
    } else {
        fragment.color
    }
}

/// The fixed emissive core color.
pub open spec fn spec_emissive_core() -> (int, int, int) {
    (255, 120, 40)
}

/// The emissive material: the base color moved nine tenths of the way
/// toward the core color brightened by twice the intensity. This blend
/// happens entirely in the shader; it is distinct from the
/// framebuffer's emission-buffer composite.
pub open spec fn spec_emissive_channels(base: Color, intensity: int) -> (int, int, int) {
    let core = spec_emissive_core();
    (
        spec_lerp_channel(base.r as int, spec_scale_channel(core.0, 2 * intensity), 900),
        spec_lerp_channel(base.g as int, spec_scale_channel(core.1, 2 * intensity), 900),
        spec_lerp_channel(base.b as int, spec_scale_channel(core.2, 2 * intensity), 900),
    )
}

/// The emissive material shader.
pub fn emissive_shader(fragment: &Fragment) -> (c: Color)
    requires
        fragment.wf(),
    ensures
        (c.r as int, c.g as int, c.b as int) == spec_emissive_channels(fragment.color, fragment.intensity as int),
{
    let core = Color::new(255, 120, 40);
    let glow: Color = core.scale(2 * fragment.intensity);
    fragment.color.lerp(&glow, 900)
}

/// The cooler of the two star colors.
pub open spec fn spec_star_cool() -> (int, int, int) {
    (255, 160, 0)
}

/// The hotter of the two star colors.
pub open spec fn spec_star_hot() -> (int, int, int) {
    (255, 240, 180)
}

/// The star color: a vertical blend of two warm colors, deliberately
/// over-brightened by twice the intensity and clamped per channel.
pub open spec fn spec_star_channels(y: int, intensity: int) -> (int, int, int) {
    let t = spec_vertical_t(y);
    let cool = spec_star_cool();
    let hot = spec_star_hot();
    (
        spec_scale_channel(spec_lerp_channel(cool.0, hot.0, t), 2 * intensity),
        spec_scale_channel(spec_lerp_channel(cool.1, hot.1, t), 2 * intensity),
        spec_scale_channel(spec_lerp_channel(cool.2, hot.2, t), 2 * intensity),
    )
}

/// The star material, selected by an explicit flag rather than a
/// uniforms field; an unselected fragment keeps its base color.
pub fn star_shader(fragment: &Fragment, emissive_body: bool) -> (c: Color)
    requires
        fragment.wf(),
    ensures
        emissive_body ==> (c.r as int, c.g as int, c.b as int)
            == spec_star_channels(fragment.position.y as int, fragment.intensity as int),
        !emissive_body ==> c == fragment.color,
{
    if emissive_body {
        let cool = Color::new(255, 160, 0);
        let hot = Color::new(255, 240, 180);
        let t: i64 = vertical_t(fragment.position.y);
        cool.lerp(&hot, t).scale(2 * fragment.intensity)
    } else {
        fragment.color
    }
}

/// The deep banded-cloud base color.
pub open spec fn spec_cloud_deep() -> (int, int, int) {
    (30, 80, 160)
}

/// The pale banded-cloud base color.
pub open spec fn spec_cloud_pale() -> (int, int, int) {
    (90, 150, 210)
}

/// The cloud cover color.
pub open spec fn spec_cloud_cover() -> (int, int, int) {
    (245, 245, 245)
}

/// Cloud opacity: the periodic wave `sin(3y) * cos(3x)` plus the noise
/// sample, scaled by 0.6 and clamped into `[0, 1]`. The wave product is
/// held in micro-units before the scale.
pub open spec fn spec_cloud_opacity(x: int, y: int, n: int) -> int {
    let q = spec_sin(3 * y) * spec_cos(3 * x) + n * 1000;
    if q <= 0 {
        0
    } else if q * 600 / 1000000 > 1000 {
        1000
    } else {
        q * 600 / 1000000
    }
}

/// The banded cloud planet color: a vertical gradient base, blended
/// toward the cloud cover by the cloud opacity.
pub open spec fn spec_cloud_channels(x: int, y: int, n: int) -> (int, int, int) {
    let t = spec_vertical_t(y);
    let deep = spec_cloud_deep();
    let pale = spec_cloud_pale();
    let cover = spec_cloud_cover();
    let op = spec_cloud_opacity(x, y, n);
    (
        spec_lerp_channel(spec_lerp_channel(deep.0, pale.0, t), cover.0, op),
        spec_lerp_channel(spec_lerp_channel(deep.1, pale.1, t), cover.1, op),
        spec_lerp_channel(spec_lerp_channel(deep.2, pale.2, t), cover.2, op),
    )
}

/// The banded cloud planet material. The noise sample is taken by the
/// caller in roughly `[-1, 1]`.
pub fn cloud_shader(fragment: &Fragment, noise_value: i64) -> (c: Color)
    requires
        fragment.wf(),
        -1000 <= noise_value <= 1000,
    ensures
        (c.r as int, c.g as int, c.b as int)
            == spec_cloud_channels(fragment.position.x as int, fragment.position.y as int, noise_value as int),
{
    let deep = Color::new(30, 80, 160);
    let pale = Color::new(90, 150, 210);
    let cover = Color::new(245, 245, 245);
    let t: i64 = vertical_t(fragment.position.y);
    let base: Color = deep.lerp(&pale, t);

    let sy: i64 = fx_sin(3 * fragment.position.y);
    let cx: i64 = fx_cos(3 * fragment.position.x);
    proof {
        assert(-1000000 <= sy * cx <= 1000000) by (nonlinear_arith)
            requires -1000 <= sy <= 1000, -1000 <= cx <= 1000;
    }
    let q: i64 = sy * cx + noise_value * 1000;
    let op: i64 = if q <= 0 {
        0
    } else {
        let scaled: i64 = q * 600 / 1000000;
        if scaled > 1000 {
            1000
        } else {
            scaled
        }
    };
    base.lerp(&cover, op)
}

} // verus!
