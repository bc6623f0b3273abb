//! Fixed-point vectors and matrices for the vertex transform. Entries
//! are milli-units; a matrix-vector product divides each accumulated row
//! by one thousand to stay in milli-units, truncating toward zero.

use vstd::prelude::*;

use crate::fixed::{divt, iabs, divt_i128};

verus! {

/// A pair of milli-unit texture coordinates.
#[derive(Clone, Copy, PartialEq, Eq, Structural, Debug)]
pub struct Vec2Fx {
    pub x: i64,
    pub y: i64,
}

/// A milli-unit 3-component vector.
#[derive(Clone, Copy, PartialEq, Eq, Structural, Debug)]
pub struct Vec3Fx {
    pub x: i64,
    pub y: i64,
    pub z: i64,
}

/// A milli-unit homogeneous 4-component vector.
#[derive(Clone, Copy, PartialEq, Eq, Structural, Debug)]
pub struct Vec4Fx {
    pub x: i64,
    pub y: i64,
    pub z: i64,
    pub w: i64,
}

/// A milli-unit 4x4 matrix, row major: `mRC` is row R, column C.
#[derive(Clone, Copy, PartialEq, Eq, Structural, Debug)]
pub struct Mat4Fx {
    pub m00: i64, pub m01: i64, pub m02: i64, pub m03: i64,
    pub m10: i64, pub m11: i64, pub m12: i64, pub m13: i64,
    pub m20: i64, pub m21: i64, pub m22: i64, pub m23: i64,
    pub m30: i64, pub m31: i64, pub m32: i64, pub m33: i64,
}

/// A milli-unit 3x3 matrix, row major.
#[derive(Clone, Copy, PartialEq, Eq, Structural, Debug)]
pub struct Mat3Fx {
    pub m00: i64, pub m01: i64, pub m02: i64,
    pub m10: i64, pub m11: i64, pub m12: i64,
    pub m20: i64, pub m21: i64, pub m22: i64,
}

impl Vec3Fx {
    pub open spec fn bounded(self, b: int) -> bool {
        &&& iabs(self.x as int) <= b
        &&& iabs(self.y as int) <= b
        &&& iabs(self.z as int) <= b
    }
}

impl Vec4Fx {
    pub open spec fn bounded(self, b: int) -> bool {
        &&& iabs(self.x as int) <= b
        &&& iabs(self.y as int) <= b
        &&& iabs(self.z as int) <= b
        &&& iabs(self.w as int) <= b
    }
}

impl Mat4Fx {
    pub open spec fn bounded(self, b: int) -> bool {
        &&& iabs(self.m00 as int) <= b && iabs(self.m01 as int) <= b
        &&& iabs(self.m02 as int) <= b && iabs(self.m03 as int) <= b
        &&& iabs(self.m10 as int) <= b && iabs(self.m11 as int) <= b
        &&& iabs(self.m12 as int) <= b && iabs(self.m13 as int) <= b
        &&& iabs(self.m20 as int) <= b && iabs(self.m21 as int) <= b
        &&& iabs(self.m22 as int) <= b && iabs(self.m23 as int) <= b
        &&& iabs(self.m30 as int) <= b && iabs(self.m31 as int) <= b
        &&& iabs(self.m32 as int) <= b && iabs(self.m33 as int) <= b
    }

    /// The milli-unit identity.
    pub fn identity() -> (m: Mat4Fx)
        ensures
            m == (Mat4Fx {
                m00: 1000i64, m01: 0i64, m02: 0i64, m03: 0i64,
                m10: 0i64, m11: 1000i64, m12: 0i64, m13: 0i64,
                m20: 0i64, m21: 0i64, m22: 1000i64, m23: 0i64,
                m30: 0i64, m31: 0i64, m32: 0i64, m33: 1000i64,
            }),
    {
        Mat4Fx {
            m00: 1000, m01: 0, m02: 0, m03: 0,
            m10: 0, m11: 1000, m12: 0, m13: 0,
            m20: 0, m21: 0, m22: 1000, m23: 0,
            m30: 0, m31: 0, m32: 0, m33: 1000,
        }
    }
}

impl Mat3Fx {
    pub open spec fn bounded(self, b: int) -> bool {
        &&& iabs(self.m00 as int) <= b && iabs(self.m01 as int) <= b && iabs(self.m02 as int) <= b
        &&& iabs(self.m10 as int) <= b && iabs(self.m11 as int) <= b && iabs(self.m12 as int) <= b
        &&& iabs(self.m20 as int) <= b && iabs(self.m21 as int) <= b && iabs(self.m22 as int) <= b
    }
}

/// One row of a fixed-point 4x4 matrix application: the dot product of
/// the row with the vector, brought back to milli-units.
pub open spec fn spec_row4(a: int, b: int, c: int, d: int, x: int, y: int, z: int, w: int) -> int {
    divt(a * x + b * y + c * z + d * w, 1000)
}

/// One row of a fixed-point 3x3 matrix application.
pub open spec fn spec_row3(a: int, b: int, c: int, x: int, y: int, z: int) -> int {
    divt(a * x + b * y + c * z, 1000)
}

/// The raw (unscaled) determinant polynomial of a 3x3 matrix.
pub open spec fn spec_det3(m: Mat3Fx) -> int {
    m.m00 * (m.m11 * m.m22 - m.m12 * m.m21)
        - m.m01 * (m.m10 * m.m22 - m.m12 * m.m20)
        + m.m02 * (m.m10 * m.m21 - m.m11 * m.m20)
}

/// Entry `(r, c)` of the milli-unit inverse of `m`: the adjugate entry
/// over the raw determinant, rescaled to milli-units.
pub open spec fn spec_inv3(m: Mat3Fx, r: int, c: int) -> int {
    let d = spec_det3(m);
    if r == 0 && c == 0 { divt(1000000 * (m.m11 * m.m22 - m.m12 * m.m21), d) }
    else if r == 0 && c == 1 { divt(1000000 * (m.m02 * m.m21 - m.m01 * m.m22), d) }
    else if r == 0 && c == 2 { divt(1000000 * (m.m01 * m.m12 - m.m02 * m.m11), d) }
    else if r == 1 && c == 0 { divt(1000000 * (m.m12 * m.m20 - m.m10 * m.m22), d) }
    else if r == 1 && c == 1 { divt(1000000 * (m.m00 * m.m22 - m.m02 * m.m20), d) }
    else if r == 1 && c == 2 { divt(1000000 * (m.m02 * m.m10 - m.m00 * m.m12), d) }
    else if r == 2 && c == 0 { divt(1000000 * (m.m10 * m.m21 - m.m11 * m.m20), d) }
    else if r == 2 && c == 1 { divt(1000000 * (m.m01 * m.m20 - m.m00 * m.m21), d) }
    else { divt(1000000 * (m.m00 * m.m11 - m.m01 * m.m10), d) }
}

/// Entry `(r, c)` of the normal-transform matrix for `m`: its inverse
/// when the raw determinant is non-zero, else the identity fallback.
pub open spec fn spec_inv3_or_identity(m: Mat3Fx, r: int, c: int) -> int {
    if spec_det3(m) == 0 {
        if r == c { 1000 } else { 0 }
    } else {
        spec_inv3(m, r, c)
    }
}

/// The product of two values, each bounded in absolute value, is bounded
/// by the product of the bounds.
pub proof fn lemma_mul_abs_bound(a: int, b: int, aa: int, bb: int)
    requires
        iabs(a) <= aa,
        iabs(b) <= bb,
    ensures
        -(aa * bb) <= a * b <= aa * bb,
{
    assert(-(aa * bb) <= a * b <= aa * bb) by (nonlinear_arith)
        requires -aa <= a <= aa, -bb <= b <= bb, 0 <= aa, 0 <= bb;
}

/// Truncating division by a positive divisor cannot grow the magnitude
/// past the divided bound.
pub proof fn lemma_divt_bound(a: int, b: int, aa: int)
    requires
        iabs(a) <= aa,
        b > 0,
    ensures
        iabs(divt(a, b)) <= aa / b,
{
    assert(iabs(a) / b <= aa / b) by (nonlinear_arith)
        requires 0 <= iabs(a) <= aa, b > 0;
}

fn mul_i128(a: i64, b: i64) -> (r: i128)
    ensures
        r == a as int * b as int,
{
    proof {
        lemma_mul_abs_bound(a as int, b as int, 0x8000000000000000, 0x8000000000000000);
    }
    (a as i128) * (b as i128)
}

/// A fixed-point 4x4 matrix applied to a homogeneous vector. The ghost
/// bounds cap the matrix and vector entries so every row fits.
pub(crate) fn mat4_apply(m: &Mat4Fx, v: &Vec4Fx, bm: Ghost<int>, bv: Ghost<int>) -> (r: Vec4Fx)
    requires
        0 <= bm@,
        0 <= bv@,
        m.bounded(bm@),
        v.bounded(bv@),
        4 * (bm@ * bv@) <= 1000 * (i64::MAX as int),
    ensures
        r.x == spec_row4(m.m00 as int, m.m01 as int, m.m02 as int, m.m03 as int, v.x as int, v.y as int, v.z as int, v.w as int),
        r.y == spec_row4(m.m10 as int, m.m11 as int, m.m12 as int, m.m13 as int, v.x as int, v.y as int, v.z as int, v.w as int),
        r.z == spec_row4(m.m20 as int, m.m21 as int, m.m22 as int, m.m23 as int, v.x as int, v.y as int, v.z as int, v.w as int),
        r.w == spec_row4(m.m30 as int, m.m31 as int, m.m32 as int, m.m33 as int, v.x as int, v.y as int, v.z as int, v.w as int),
        r.bounded(4 * (bm@ * bv@) / 1000),
    {
    let x: i64 = row4(m.m00, m.m01, m.m02, m.m03, v, bm, bv);
    let y: i64 = row4(m.m10, m.m11, m.m12, m.m13, v, bm, bv);
    let z: i64 = row4(m.m20, m.m21, m.m22, m.m23, v, bm, bv);
    let w: i64 = row4(m.m30, m.m31, m.m32, m.m33, v, bm, bv);
    Vec4Fx { x, y, z, w }
}

fn row4(a: i64, b: i64, c: i64, d: i64, v: &Vec4Fx, bm: Ghost<int>, bv: Ghost<int>) -> (r: i64)
    requires
        0 <= bm@,
        0 <= bv@,
        iabs(a as int) <= bm@,
        iabs(b as int) <= bm@,
        iabs(c as int) <= bm@,
        iabs(d as int) <= bm@,
        v.bounded(bv@),
        4 * (bm@ * bv@) <= 1000 * (i64::MAX as int),
    ensures
        r == spec_row4(a as int, b as int, c as int, d as int, v.x as int, v.y as int, v.z as int, v.w as int),
        iabs(r as int) <= 4 * (bm@ * bv@) / 1000,
{
    proof {
        lemma_mul_abs_bound(a as int, v.x as int, bm@, bv@);
        lemma_mul_abs_bound(b as int, v.y as int, bm@, bv@);
        lemma_mul_abs_bound(c as int, v.z as int, bm@, bv@);
        lemma_mul_abs_bound(d as int, v.w as int, bm@, bv@);
    }
    let s: i128 = mul_i128(a, v.x) + mul_i128(b, v.y) + mul_i128(c, v.z) + mul_i128(d, v.w);
    let q: i128 = divt_i128(s, 1000);
    proof {
        lemma_divt_bound(s as int, 1000, 4 * (bm@ * bv@));
        assert(4 * (bm@ * bv@) / 1000 <= i64::MAX as int) by (nonlinear_arith)
            requires 4 * (bm@ * bv@) <= 1000 * (i64::MAX as int), 0 <= 4 * (bm@ * bv@);
    }
    q as i64
}

/// A fixed-point 3x3 matrix applied to a vector, under ghost bounds.
pub(crate) fn mat3_apply(m: &Mat3Fx, v: &Vec3Fx, bm: Ghost<int>, bv: Ghost<int>) -> (r: Vec3Fx)
    requires
        0 <= bm@,
        0 <= bv@,
        m.bounded(bm@),
        v.bounded(bv@),
        3 * (bm@ * bv@) <= 1000 * (i64::MAX as int),
    ensures
        r.x == spec_row3(m.m00 as int, m.m01 as int, m.m02 as int, v.x as int, v.y as int, v.z as int),
        r.y == spec_row3(m.m10 as int, m.m11 as int, m.m12 as int, v.x as int, v.y as int, v.z as int),
        r.z == spec_row3(m.m20 as int, m.m21 as int, m.m22 as int, v.x as int, v.y as int, v.z as int),
        r.bounded(3 * (bm@ * bv@) / 1000),
{
    let x: i64 = row3(m.m00, m.m01, m.m02, v, bm, bv);
    let y: i64 = row3(m.m10, m.m11, m.m12, v, bm, bv);
    let z: i64 = row3(m.m20, m.m21, m.m22, v, bm, bv);
    Vec3Fx { x, y, z }
}

fn row3(a: i64, b: i64, c: i64, v: &Vec3Fx, bm: Ghost<int>, bv: Ghost<int>) -> (r: i64)
    requires
        0 <= bm@,
        0 <= bv@,
        iabs(a as int) <= bm@,
        iabs(b as int) <= bm@,
        iabs(c as int) <= bm@,
        v.bounded(bv@),
        3 * (bm@ * bv@) <= 1000 * (i64::MAX as int),
    ensures
        r == spec_row3(a as int, b as int, c as int, v.x as int, v.y as int, v.z as int),
        iabs(r as int) <= 3 * (bm@ * bv@) / 1000,
{
    proof {
        lemma_mul_abs_bound(a as int, v.x as int, bm@, bv@);
        lemma_mul_abs_bound(b as int, v.y as int, bm@, bv@);
        lemma_mul_abs_bound(c as int, v.z as int, bm@, bv@);
    }
    let s: i128 = mul_i128(a, v.x) + mul_i128(b, v.y) + mul_i128(c, v.z);
    let q: i128 = divt_i128(s, 1000);
    proof {
        lemma_divt_bound(s as int, 1000, 3 * (bm@ * bv@));
        assert(3 * (bm@ * bv@) / 1000 <= i64::MAX as int) by (nonlinear_arith)
            requires 3 * (bm@ * bv@) <= 1000 * (i64::MAX as int), 0 <= 3 * (bm@ * bv@);
    }
    q as i64
}

/// The transposed upper-left 3x3 block of a 4x4 matrix.
pub open spec fn spec_upper_left_transposed(m: Mat4Fx) -> Mat3Fx {
    Mat3Fx {
        m00: m.m00, m01: m.m10, m02: m.m20,
        m10: m.m01, m11: m.m11, m12: m.m21,
        m20: m.m02, m21: m.m12, m22: m.m22,
    }
}

/// The transposed upper-left 3x3 block, as executable code.
pub fn upper_left_transposed(m: &Mat4Fx) -> (r: Mat3Fx)
    ensures
        r == spec_upper_left_transposed(*m),
{
    Mat3Fx {
        m00: m.m00, m01: m.m10, m02: m.m20,
        m10: m.m01, m11: m.m11, m12: m.m21,
        m20: m.m02, m21: m.m12, m22: m.m22,
    }
}

/// The milli-unit inverse of a 3x3 matrix, or the identity when the
/// matrix is singular (raw determinant zero).
pub(crate) fn invert3_or_identity(m: &Mat3Fx, bm: Ghost<int>) -> (r: Mat3Fx)
    requires
        1 <= bm@ <= 2000000,
        m.bounded(bm@),
    ensures
        r.m00 == spec_inv3_or_identity(*m, 0, 0),
        r.m01 == spec_inv3_or_identity(*m, 0, 1),
        r.m02 == spec_inv3_or_identity(*m, 0, 2),
        r.m10 == spec_inv3_or_identity(*m, 1, 0),
        r.m11 == spec_inv3_or_identity(*m, 1, 1),
        r.m12 == spec_inv3_or_identity(*m, 1, 2),
        r.m20 == spec_inv3_or_identity(*m, 2, 0),
        r.m21 == spec_inv3_or_identity(*m, 2, 1),
        r.m22 == spec_inv3_or_identity(*m, 2, 2),
        r.bounded(1000000 * ((bm@ * bm@) + (bm@ * bm@))),
{
    proof {
        assert((bm@ * bm@) <= 4000000000000) by (nonlinear_arith)
            requires 0 <= bm@ <= 2000000;
        lemma_mul_abs_bound(m.m11 as int, m.m22 as int, bm@, bm@);
        lemma_mul_abs_bound(m.m12 as int, m.m21 as int, bm@, bm@);
        lemma_mul_abs_bound(m.m10 as int, m.m22 as int, bm@, bm@);
        lemma_mul_abs_bound(m.m12 as int, m.m20 as int, bm@, bm@);
        lemma_mul_abs_bound(m.m10 as int, m.m21 as int, bm@, bm@);
        lemma_mul_abs_bound(m.m11 as int, m.m20 as int, bm@, bm@);
        lemma_mul_abs_bound(m.m02 as int, m.m21 as int, bm@, bm@);
        lemma_mul_abs_bound(m.m01 as int, m.m22 as int, bm@, bm@);
        lemma_mul_abs_bound(m.m01 as int, m.m12 as int, bm@, bm@);
        lemma_mul_abs_bound(m.m02 as int, m.m11 as int, bm@, bm@);
        lemma_mul_abs_bound(m.m00 as int, m.m22 as int, bm@, bm@);
        lemma_mul_abs_bound(m.m02 as int, m.m20 as int, bm@, bm@);
        lemma_mul_abs_bound(m.m02 as int, m.m10 as int, bm@, bm@);
        lemma_mul_abs_bound(m.m00 as int, m.m12 as int, bm@, bm@);
        lemma_mul_abs_bound(m.m01 as int, m.m20 as int, bm@, bm@);
        lemma_mul_abs_bound(m.m00 as int, m.m21 as int, bm@, bm@);
        lemma_mul_abs_bound(m.m00 as int, m.m11 as int, bm@, bm@);
        lemma_mul_abs_bound(m.m01 as int, m.m10 as int, bm@, bm@);
    }
    let c00: i128 = mul_i128(m.m11, m.m22) - mul_i128(m.m12, m.m21);
    let c01: i128 = mul_i128(m.m02, m.m21) - mul_i128(m.m01, m.m22);
    let c02: i128 = mul_i128(m.m01, m.m12) - mul_i128(m.m02, m.m11);
    let c10: i128 = mul_i128(m.m12, m.m20) - mul_i128(m.m10, m.m22);
    let c11: i128 = mul_i128(m.m00, m.m22) - mul_i128(m.m02, m.m20);
    let c12: i128 = mul_i128(m.m02, m.m10) - mul_i128(m.m00, m.m12);
    let c20: i128 = mul_i128(m.m10, m.m21) - mul_i128(m.m11, m.m20);
    let c21: i128 = mul_i128(m.m01, m.m20) - mul_i128(m.m00, m.m21);
    let c22: i128 = mul_i128(m.m00, m.m11) - mul_i128(m.m01, m.m10);

    proof {
        assert((bm@ * bm@) <= 4000000000000) by (nonlinear_arith)
            requires 0 <= bm@ <= 2000000;
        lemma_mul_abs_bound(m.m00 as int, c00 as int, 2000000, 8000000000000);
        lemma_mul_abs_bound(m.m01 as int, c10 as int, 2000000, 8000000000000);
        lemma_mul_abs_bound(m.m02 as int, c20 as int, 2000000, 8000000000000);
    }
    let det: i128 = (m.m00 as i128) * c00 + (m.m01 as i128) * c10 + (m.m02 as i128) * c20;
    proof {
        assert(det == spec_det3(*m)) by {
            assert((m.m01 as int) * ((m.m12 as int) * (m.m20 as int) - (m.m10 as int) * (m.m22 as int))
                == -((m.m01 as int) * ((m.m10 as int) * (m.m22 as int) - (m.m12 as int) * (m.m20 as int)))) by (nonlinear_arith);
        }
    }
    if det == 0 {
        proof {
            assert(1 <= bm@ * bm@) by (nonlinear_arith)
                requires 1 <= bm@;
        }
        Mat3Fx {
            m00: 1000, m01: 0, m02: 0,
            m10: 0, m11: 1000, m12: 0,
            m20: 0, m21: 0, m22: 1000,
        }
    } else {
        Mat3Fx {
            m00: inv_entry(c00, det, bm),
            m01: inv_entry(c01, det, bm),
            m02: inv_entry(c02, det, bm),
            m10: inv_entry(c10, det, bm),
            m11: inv_entry(c11, det, bm),
            m12: inv_entry(c12, det, bm),
            m20: inv_entry(c20, det, bm),
            m21: inv_entry(c21, det, bm),
            m22: inv_entry(c22, det, bm),
        }
    }
}

fn inv_entry(cof: i128, det: i128, bm: Ghost<int>) -> (r: i64)
    requires
        0 <= bm@,
        det != 0,
        det > i128::MIN,
        iabs(cof as int) <= (bm@ * bm@) + (bm@ * bm@),
        1000000 * ((bm@ * bm@) + (bm@ * bm@)) <= i64::MAX as int,
    ensures
        r == divt(1000000 * (cof as int), det as int),
        iabs(r as int) <= 1000000 * ((bm@ * bm@) + (bm@ * bm@)),
{
    proof {
        lemma_mul_abs_bound(1000000, cof as int, 1000000, (bm@ * bm@) + (bm@ * bm@));
    }
    let q: i128 = divt_i128(1000000 * cof, det);
    q as i64
}

} // verus!
