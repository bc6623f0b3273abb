//! The depth-tested framebuffer: parallel color, depth and emission
//! buffers indexed by `y * width + x`, a nearest-wins depth test, and the
//! post-process pass that composites the emission buffer into the colors.
//!
//! Depths are fixed-point milli-units; smaller is nearer the camera. The
//! depth buffer is cleared to [`DEPTH_FAR`], which is larger than any
//! legal depth, so the first write to a pixel always lands.

use vstd::prelude::*;
use vstd::arithmetic::div_mod::{lemma_mod_multiples_vanish, lemma_small_mod};

use crate::color::spec_sat_add_channel;

verus! {

/// The sentinel stored in cleared depth cells: farther than any depth a
/// caller may pass.
pub const DEPTH_FAR: i64 = i64::MAX;

/// The mathematical state of a framebuffer: the three parallel buffers
/// and the current-state fields that parameterize point writes.
#[verifier::ext_equal]
pub ghost struct FbState {
    pub width: nat,
    pub height: nat,
    pub colors: Seq<u32>,
    pub depths: Seq<i64>,
    pub emissions: Seq<u32>,
    pub background: u32,
    pub current: u32,
    pub current_emission: u32,
}

impl FbState {
    /// The three buffers all cover exactly width x height pixels.
    pub open spec fn wf(self) -> bool {
        &&& self.colors.len() == self.width * self.height
        &&& self.depths.len() == self.width * self.height
        &&& self.emissions.len() == self.width * self.height
    }

    /// The flat index of the pixel `(x, y)`.
    pub open spec fn idx(self, x: int, y: int) -> int {
        y * self.width + x
    }

    /// Whether `(x, y)` names a pixel of the buffers.
    pub open spec fn in_bounds(self, x: int, y: int) -> bool {
        0 <= x < self.width && 0 <= y < self.height
    }
}

/// A depth-tested write of an explicit payload: if `(x, y)` is in bounds
/// and `depth` is strictly nearer than the stored depth, the pixel takes
/// `color`, `emission` and `depth`; otherwise nothing changes.
pub open spec fn spec_plot(s: FbState, x: int, y: int, depth: i64, color: u32, emission: u32) -> FbState {
    if s.in_bounds(x, y) && s.depths[s.idx(x, y)] > depth {
        FbState {
            colors: s.colors.update(s.idx(x, y), color),
            depths: s.depths.update(s.idx(x, y), depth),
            emissions: s.emissions.update(s.idx(x, y), emission),
            ..s
        }
    } else {
        s
    }
}

/// What `point` does: a depth-tested write of the current draw color and
/// current emission color.
pub open spec fn spec_point(s: FbState, x: int, y: int, depth: i64) -> FbState {
    spec_plot(s, x, y, depth, s.current, s.current_emission)
}

/// Saturating per-channel addition of two 0xRRGGBB packed colors.
pub open spec fn spec_mix_packed(a: int, b: int) -> int {
    spec_sat_add_channel(a / 0x10000 % 0x100, b / 0x10000 % 0x100) * 0x10000
        + spec_sat_add_channel(a / 0x100 % 0x100, b / 0x100 % 0x100) * 0x100
        + spec_sat_add_channel(a % 0x100, b % 0x100)
}

/// What `apply_emission` does: every color cell becomes the saturating
/// sum of itself and the matching emission cell; nothing else changes.
pub open spec fn spec_apply_emission(s: FbState) -> FbState {
    FbState {
        colors: Seq::new(s.colors.len(), |i: int| spec_mix_packed(s.colors[i] as int, s.emissions[i] as int) as u32),
        ..s
    }
}

/// The in-memory render target for one frame.
pub struct Framebuffer {
    pub width: usize,
    pub height: usize,
    pub buffer: Vec<u32>,
    pub zbuffer: Vec<i64>,
    pub emission_buffer: Vec<u32>,
    background_color: u32,
    current_color: u32,
    current_emission_color: u32,
}

impl View for Framebuffer {
    type V = FbState;

    closed spec fn view(&self) -> FbState {
        FbState {
            width: self.width as nat,
            height: self.height as nat,
            colors: self.buffer@,
            depths: self.zbuffer@,
            emissions: self.emission_buffer@,
            background: self.background_color,
            current: self.current_color,
            current_emission: self.current_emission_color,
        }
    }
}

impl Framebuffer {
    /// A fresh target: colors hold the default black background, depths
    /// the far sentinel, emissions zero; the draw color starts white.
    pub fn new(width: usize, height: usize) -> (fb: Framebuffer)
        requires
            width * height <= usize::MAX,
        ensures
            fb@.wf(),
            fb@.width == width,
            fb@.height == height,
            forall|i: int| 0 <= i < fb@.colors.len() ==> fb@.colors[i] == 0u32,
            forall|i: int| 0 <= i < fb@.depths.len() ==> fb@.depths[i] == DEPTH_FAR,
            forall|i: int| 0 <= i < fb@.emissions.len() ==> fb@.emissions[i] == 0u32,
            fb@.background == 0u32,
            fb@.current == 0xFFFFFFu32,
            fb@.current_emission == 0u32,
    {
        let len: usize = width * height;
        let mut buffer: Vec<u32> = Vec::new();
        buffer.resize(len, 0u32);
        let mut zbuffer: Vec<i64> = Vec::new();
        zbuffer.resize(len, DEPTH_FAR);
        let mut emission_buffer: Vec<u32> = Vec::new();
        emission_buffer.resize(len, 0u32);
        Framebuffer {
            width,
            height,
            buffer,
            zbuffer,
            emission_buffer,
            background_color: 0x000000,
            current_color: 0xFFFFFF,
            current_emission_color: 0x000000,
        }
    }

    /// Per-frame reset: every color cell takes the background color,
    /// every depth cell the far sentinel, every emission cell zero. The
    /// dimensions and the current-state fields are untouched.
    pub fn clear(&mut self)
        requires
            old(self)@.wf(),
        ensures
            final(self)@.wf(),
            final(self)@.width == old(self)@.width,
            final(self)@.height == old(self)@.height,
            final(self)@.background == old(self)@.background,
            final(self)@.current == old(self)@.current,
            final(self)@.current_emission == old(self)@.current_emission,
            forall|i: int| 0 <= i < final(self)@.colors.len() ==> final(self)@.colors[i] == old(self)@.background,
            forall|i: int| 0 <= i < final(self)@.depths.len() ==> final(self)@.depths[i] == DEPTH_FAR,
            forall|i: int| 0 <= i < final(self)@.emissions.len() ==> final(self)@.emissions[i] == 0u32,
    {
        let len: usize = self.buffer.len();
        let mut i: usize = 0;
        while i < len
            invariant
                len == self.buffer.len(),
                self.zbuffer.len() == len,
                self.emission_buffer.len() == len,
                i <= len,
                self.width == old(self).width,
                self.height == old(self).height,
                self.background_color == old(self).background_color,
                self.current_color == old(self).current_color,
                self.current_emission_color == old(self).current_emission_color,
                forall|j: int| 0 <= j < i ==> self.buffer@[j] == self.background_color,
                forall|j: int| 0 <= j < i ==> self.zbuffer@[j] == DEPTH_FAR,
                forall|j: int| 0 <= j < i ==> self.emission_buffer@[j] == 0u32,
            decreases len - i,
        {
            let bg: u32 = self.background_color;
            self.buffer.set(i, bg);
            self.zbuffer.set(i, DEPTH_FAR);
            self.emission_buffer.set(i, 0u32);
            i += 1;
        }
    }

    /// The depth-tested write. Out-of-bounds coordinates are silently
    /// ignored; an in-bounds write lands exactly when `depth` is strictly
    /// nearer than the stored depth, and then carries the current draw
    /// and emission colors.
    pub fn point(&mut self, x: usize, y: usize, depth: i64)
        requires
            old(self)@.wf(),
        ensures
            final(self)@.wf(),
            final(self)@ == spec_point(old(self)@, x as int, y as int, depth),
            !old(self)@.in_bounds(x as int, y as int) ==> final(self)@ == old(self)@,
    {
        if x < self.width && y < self.height {
            let n: usize = self.buffer.len();
            proof {
                assert(y * self.width + x < self.width * self.height) by (nonlinear_arith)
                    requires x < self.width, y < self.height;
                assert(n == self.width * self.height);
            }
            let index: usize = y * self.width + x;
            if self.zbuffer[index] > depth {
                let c: u32 = self.current_color;
                let e: u32 = self.current_emission_color;
                self.buffer.set(index, c);
                self.emission_buffer.set(index, e);
                self.zbuffer.set(index, depth);
                proof {
                    assert(final(self)@ =~= spec_point(old(self)@, x as int, y as int, depth));
                }
            } else {
                proof {
                    assert(final(self)@ =~= spec_point(old(self)@, x as int, y as int, depth));
                }
            }
        } else {
            proof {
                assert(final(self)@ =~= spec_point(old(self)@, x as int, y as int, depth));
            }
        }
    }

    /// Sets the color that `clear` fills the color buffer with.
    pub fn set_background_color(&mut self, color: u32)
        ensures
            final(self)@ == (FbState { background: color, ..old(self)@ }),
    {
        self.background_color = color;
    }

    /// Sets the draw color that subsequent `point` calls write.
    pub fn set_current_color(&mut self, color: u32)
        ensures
            final(self)@ == (FbState { current: color, ..old(self)@ }),
    {
        self.current_color = color;
    }

    /// Sets the emission color that subsequent `point` calls write.
    pub fn set_emission_color(&mut self, color: u32)
        ensures
            final(self)@ == (FbState { current_emission: color, ..old(self)@ }),
    {
        self.current_emission_color = color;
    }

    /// The post-process pass: every color cell becomes the saturating
    /// per-channel sum of itself and the matching emission cell. The
    /// emission buffer is left as it is, so running the pass again
    /// brightens the colors further: it is not idempotent.
    pub fn apply_emission(&mut self)
        requires
            old(self)@.wf(),
        ensures
            final(self)@.wf(),
            final(self)@ == spec_apply_emission(old(self)@),
    {
        let len: usize = self.buffer.len();
        let mut i: usize = 0;
        while i < len
            invariant
                old(self)@.wf(),
                len == self.buffer.len(),
                len == old(self)@.colors.len(),
                self.emission_buffer@ == old(self)@.emissions,
                self.zbuffer@ == old(self)@.depths,
                self.width == old(self).width,
                self.height == old(self).height,
                self.background_color == old(self).background_color,
                self.current_color == old(self).current_color,
                self.current_emission_color == old(self).current_emission_color,
                i <= len,
                forall|j: int| 0 <= j < i ==> self.buffer@[j] == spec_mix_packed(old(self)@.colors[j] as int, old(self)@.emissions[j] as int),
                forall|j: int| i <= j < len ==> self.buffer@[j] == old(self)@.colors[j],
            decreases len - i,
        {
            let base_color: u32 = self.buffer[i];
            let emission_color: u32 = self.emission_buffer[i];
            let mixed: u32 = mix_colors(base_color, emission_color);
            self.buffer.set(i, mixed);
            i += 1;
        }
        proof {
            assert(final(self)@ =~= spec_apply_emission(old(self)@));
        }
    }
}

/// Saturating per-channel mix of two 0xRRGGBB packed colors.
fn mix_colors(color1: u32, color2: u32) -> (mixed: u32)
    ensures
        mixed == spec_mix_packed(color1 as int, color2 as int),
        mixed <= 0xFFFFFF,
{
    let r1: u32 = (color1 / 0x10000) % 0x100;
    let g1: u32 = (color1 / 0x100) % 0x100;
    let b1: u32 = color1 % 0x100;

    let r2: u32 = (color2 / 0x10000) % 0x100;
    let g2: u32 = (color2 / 0x100) % 0x100;
    let b2: u32 = color2 % 0x100;

    let r: u32 = if r1 + r2 > 255 { 255 } else { r1 + r2 };
    let g: u32 = if g1 + g2 > 255 { 255 } else { g1 + g2 };
    let b: u32 = if b1 + b2 > 255 { 255 } else { b1 + b2 };

    r * 0x10000 + g * 0x100 + b
}

/// Nearest-wins, whatever the order: writing payloads at depths `d1 < d2`
/// to one pixel whose stored depth is behind `d1` leaves, in either call
/// order, exactly the `d1` payload on that pixel — the same final state.
pub proof fn lemma_point_depth_order(s: FbState, x: int, y: int, d1: i64, d2: i64, c1: u32, e1: u32, c2: u32, e2: u32)
    requires
        s.wf(),
        s.in_bounds(x, y),
        d1 < d2,
        s.depths[s.idx(x, y)] > d1,
    ensures
        spec_plot(spec_plot(s, x, y, d2, c2, e2), x, y, d1, c1, e1)
            =~= spec_plot(spec_plot(s, x, y, d1, c1, e1), x, y, d2, c2, e2),
        spec_plot(spec_plot(s, x, y, d2, c2, e2), x, y, d1, c1, e1)
            =~= spec_plot(s, x, y, d1, c1, e1),
        spec_plot(spec_plot(s, x, y, d2, c2, e2), x, y, d1, c1, e1).depths[s.idx(x, y)] == d1,
        spec_plot(spec_plot(s, x, y, d2, c2, e2), x, y, d1, c1, e1).colors[s.idx(x, y)] == c1,
        spec_plot(spec_plot(s, x, y, d2, c2, e2), x, y, d1, c1, e1).emissions[s.idx(x, y)] == e1,
{
    let i = s.idx(x, y);
    assert(0 <= i < s.depths.len()) by (nonlinear_arith)
        requires s.wf(), s.in_bounds(x, y), i == y * s.width + x;
    if s.depths[i] > d2 {
        assert(spec_plot(spec_plot(s, x, y, d2, c2, e2), x, y, d1, c1, e1)
            =~= spec_plot(s, x, y, d1, c1, e1));
    } else {
        assert(spec_plot(s, x, y, d2, c2, e2) == s);
    }
    assert(spec_plot(spec_plot(s, x, y, d1, c1, e1), x, y, d2, c2, e2)
        =~= spec_plot(s, x, y, d1, c1, e1));
}

/// A `point` call leaves the buffers byte-for-byte unchanged when its
/// coordinates lie outside the framebuffer.
pub proof fn lemma_point_out_of_bounds(s: FbState, x: int, y: int, depth: i64)
    requires
        !s.in_bounds(x, y),
    ensures
        spec_point(s, x, y, depth) == s,
{
}

/// Within a frame, stored depths only move nearer: no `point` call can
/// increase any depth cell.
pub proof fn lemma_point_depth_monotone(s: FbState, x: int, y: int, depth: i64)
    requires
        s.wf(),
    ensures
        forall|i: int| 0 <= i < s.depths.len()
            ==> #[trigger] spec_point(s, x, y, depth).depths[i] <= s.depths[i],
{
    if s.in_bounds(x, y) && s.depths[s.idx(x, y)] > depth {
        let j = s.idx(x, y);
        assert(0 <= j < s.depths.len()) by (nonlinear_arith)
            requires s.wf(), s.in_bounds(x, y), j == y * s.width + x;
        assert forall|i: int| 0 <= i < s.depths.len()
            implies #[trigger] spec_point(s, x, y, depth).depths[i] <= s.depths[i] by {
            if i == j {
                assert(spec_point(s, x, y, depth).depths[j] == depth);
            } else {
                assert(spec_point(s, x, y, depth).depths[i] == s.depths[i]);
            }
        }
    }
}

/// The lowest packed channel of a well-formed 0xRRGGBB triple.
proof fn lemma_pack_low_channel(r: int, g: int, b: int)
    requires
        0 <= r,
        0 <= g,
        0 <= b < 0x100,
    ensures
        (r * 0x10000 + g * 0x100 + b) % 0x100 == b,
{
    lemma_mod_multiples_vanish(r * 0x100 + g, b, 0x100);
    assert(0x100 * (r * 0x100 + g) + b == r * 0x10000 + g * 0x100 + b) by (nonlinear_arith);
    lemma_small_mod(b as nat, 0x100nat);
}

/// The emission composite is not idempotent: on a pixel whose emission
/// has a nonzero low channel that two passes cannot saturate, running
/// the pass a second time brightens the color further.
pub proof fn lemma_apply_emission_not_idempotent(s: FbState, i: int)
    requires
        s.wf(),
        0 <= i < s.colors.len(),
        (s.emissions[i] as int) % 0x100 > 0,
        (s.colors[i] as int) % 0x100 + 2 * ((s.emissions[i] as int) % 0x100) <= 255,
    ensures
        spec_apply_emission(spec_apply_emission(s)).colors[i] != spec_apply_emission(s).colors[i],
{
    let c = s.colors[i] as int;
    let e = s.emissions[i] as int;
    let r1 = spec_sat_add_channel(c / 0x10000 % 0x100, e / 0x10000 % 0x100);
    let g1 = spec_sat_add_channel(c / 0x100 % 0x100, e / 0x100 % 0x100);
    let b1 = spec_sat_add_channel(c % 0x100, e % 0x100);
    let once = spec_mix_packed(c, e);
    assert(b1 == c % 0x100 + e % 0x100);
    lemma_pack_low_channel(r1, g1, b1);
    assert(once % 0x100 == b1);
    assert(0 <= once <= 0xFFFFFF);

    let s1 = spec_apply_emission(s);
    assert(s1.colors[i] == once as u32);
    assert(s1.emissions[i] == s.emissions[i]);

    let r2 = spec_sat_add_channel(once / 0x10000 % 0x100, e / 0x10000 % 0x100);
    let g2 = spec_sat_add_channel(once / 0x100 % 0x100, e / 0x100 % 0x100);
    let b2 = spec_sat_add_channel(once % 0x100, e % 0x100);
    let twice = spec_mix_packed(once, e);
    assert(b2 == b1 + e % 0x100);
    lemma_pack_low_channel(r2, g2, b2);
    assert(twice % 0x100 == b2);
    assert(0 <= twice <= 0xFFFFFF);

    assert(spec_apply_emission(s1).colors[i] == twice as u32);
    assert(b2 != b1);
}

/// Right after a clear, a `point` at any in-bounds pixel with any depth
/// nearer than the sentinel lands: the pixel takes the current draw
/// color, the current emission color, and that depth.
pub proof fn lemma_point_after_clear(s: FbState, x: int, y: int, depth: i64)
    requires
        s.wf(),
        s.in_bounds(x, y),
        forall|i: int| 0 <= i < s.depths.len() ==> s.depths[i] == DEPTH_FAR,
        depth < DEPTH_FAR,
    ensures
        spec_point(s, x, y, depth).colors[s.idx(x, y)] == s.current,
        spec_point(s, x, y, depth).emissions[s.idx(x, y)] == s.current_emission,
        spec_point(s, x, y, depth).depths[s.idx(x, y)] == depth,
{
    let i = s.idx(x, y);
    assert(0 <= i < s.depths.len()) by (nonlinear_arith)
        requires s.wf(), s.in_bounds(x, y), i == y * s.width + x;
}

} // verus!
