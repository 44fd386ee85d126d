//! The orthonormal camera basis and axis-angle rotation via Rodrigues'
//! formula, over fixed-point cosine/sine pairs.

use vstd::prelude::*;
use crate::fixed::{
    lemma_mul_abs, lemma_tdiv_quotient_abs, mul_fx, tdiv, SCALE, UMAX, VMAX,
};
use crate::vec3::{
    add_s, clamp_s, lemma_scale_in, normalized_s, scale_s, vec_in, Vec3,
};

verus! {

/// Three basis vectors, stored as the columns of a 3x3 matrix.
#[derive(Clone, Copy, Debug, PartialEq, Eq, Structural)]
pub struct Mat3 {
    /// First column (the camera's right axis).
    pub x_axis: Vec3,
    /// Second column (the camera's up axis).
    pub y_axis: Vec3,
    /// Third column (the camera's backward axis).
    pub z_axis: Vec3,
}

/// All entries of the matrix have magnitude at most `b`.
pub open spec fn mat_in(m: Mat3, b: int) -> bool {
    &&& vec_in(m.x_axis, b)
    &&& vec_in(m.y_axis, b)
    &&& vec_in(m.z_axis, b)
}

/// Matrix-vector product: the columns weighted by the components.
pub open spec fn mul_vec_s(m: Mat3, v: Vec3) -> Vec3 {
    add_s(
        add_s(scale_s(m.x_axis, v.x as int), scale_s(m.y_axis, v.y as int)),
        scale_s(m.z_axis, v.z as int),
    )
}

/// The Rodrigues rotation matrix about the normalized `axis` by the
/// angle whose fixed-point cosine and sine are `c` and `s`.
pub open spec fn rot_mat_s(axis: Vec3, c: int, s: int) -> Mat3 {
    let a = normalized_s(axis);
    let x = a.x as int;
    let y = a.y as int;
    let z = a.z as int;
    let omc = (SCALE as int) - c;
    let sc = SCALE as int;
    Mat3 {
        x_axis: Vec3 {
            x: (c + tdiv(tdiv(x * x, sc) * omc, sc)) as i128,
            y: (tdiv(tdiv(y * x, sc) * omc, sc) + tdiv(z * s, sc)) as i128,
            z: (tdiv(tdiv(z * x, sc) * omc, sc) - tdiv(y * s, sc)) as i128,
        },
        y_axis: Vec3 {
            x: (tdiv(tdiv(x * y, sc) * omc, sc) - tdiv(z * s, sc)) as i128,
            y: (c + tdiv(tdiv(y * y, sc) * omc, sc)) as i128,
            z: (tdiv(tdiv(z * y, sc) * omc, sc) + tdiv(x * s, sc)) as i128,
        },
        z_axis: Vec3 {
            x: (tdiv(tdiv(x * z, sc) * omc, sc) + tdiv(y * s, sc)) as i128,
            y: (tdiv(tdiv(y * z, sc) * omc, sc) - tdiv(x * s, sc)) as i128,
            z: (c + tdiv(tdiv(z * z, sc) * omc, sc)) as i128,
        },
    }
}

/// A vector of unbounded integers, for stating exact rotation algebra.
pub struct Vint {
    /// First component.
    pub x: int,
    /// Second component.
    pub y: int,
    /// Third component.
    pub z: int,
}

/// First component of the exact scaled Rodrigues rotation: the numerator
/// the fixed-point rotation truncates.  `k` is the unit axis scaled by
/// `SCALE`, `c` and `s` the scaled cosine and sine.
pub open spec fn rodrigues_x(k: Vint, c: int, s: int, v: Vint) -> int {
    65536 * 65536 * c * v.x + 65536 * s * (k.y * v.z - k.z * v.y) + (65536 - c) * (k.x * v.x
        + k.y * v.y + k.z * v.z) * k.x
}

/// Second component of the exact scaled Rodrigues rotation.
pub open spec fn rodrigues_y(k: Vint, c: int, s: int, v: Vint) -> int {
    65536 * 65536 * c * v.y + 65536 * s * (k.z * v.x - k.x * v.z) + (65536 - c) * (k.x * v.x
        + k.y * v.y + k.z * v.z) * k.y
}

/// Third component of the exact scaled Rodrigues rotation.
pub open spec fn rodrigues_z(k: Vint, c: int, s: int, v: Vint) -> int {
    65536 * 65536 * c * v.z + 65536 * s * (k.x * v.y - k.y * v.x) + (65536 - c) * (k.x * v.x
        + k.y * v.y + k.z * v.z) * k.z
}

/// The exact scaled Rodrigues rotation of `v` about `k`.
pub open spec fn rodrigues_s(k: Vint, c: int, s: int, v: Vint) -> Vint {
    Vint {
        x: rodrigues_x(k, c, s, v),
        y: rodrigues_y(k, c, s, v),
        z: rodrigues_z(k, c, s, v),
    }
}

/// Rotating by an angle and then by its negative restores the vector,
/// shown here for rotation about the third basis axis: for an exact
/// cosine/sine pair, the composition of the exact Rodrigues rotation
/// with its inverse is the identity, scaled by the sixth power of
/// `SCALE` that the two applications accumulate.  (The executable
/// rotation computes these numerators and truncates once per matrix
/// entry and per component, so a rotate and its inverse agree up to
/// those truncation steps.)
pub proof fn lemma_rotation_round_trip_z(c: int, s: int, v: Vint)
    requires
        c * c + s * s == 65536 * 65536,
    ensures
        rodrigues_s(
            Vint { x: 0, y: 0, z: 65536 },
            c,
            -s,
            rodrigues_s(Vint { x: 0, y: 0, z: 65536 }, c, s, v),
        ) == (Vint {
            x: 79228162514264337593543950336 * v.x,
            y: 79228162514264337593543950336 * v.y,
            z: 79228162514264337593543950336 * v.z,
        }),
{
    let k = Vint { x: 0, y: 0, z: 65536 };
    let wx: int = 65536 * 65536 * (c * v.x - s * v.y);
    let wy: int = 65536 * 65536 * (c * v.y + s * v.x);
    let wz: int = 65536 * 65536 * 65536 * v.z;
    let w = Vint { x: wx, y: wy, z: wz };
    assert(rodrigues_x(k, c, s, v) == 65536 * 65536 * c * v.x + 65536 * s * (0 * v.z - 65536
        * v.y) + (65536 - c) * (0 * v.x + 0 * v.y + 65536 * v.z) * 0);
    assert(65536 * 65536 * c * v.x + 65536 * s * (0 * v.z - 65536 * v.y) + (65536 - c) * (0
        * v.x + 0 * v.y + 65536 * v.z) * 0 == wx) by (nonlinear_arith)
        requires
            wx == 65536 * 65536 * (c * v.x - s * v.y),
    ;
    assert(rodrigues_y(k, c, s, v) == 65536 * 65536 * c * v.y + 65536 * s * (65536 * v.x - 0
        * v.z) + (65536 - c) * (0 * v.x + 0 * v.y + 65536 * v.z) * 0);
    assert(65536 * 65536 * c * v.y + 65536 * s * (65536 * v.x - 0 * v.z) + (65536 - c) * (0
        * v.x + 0 * v.y + 65536 * v.z) * 0 == wy) by (nonlinear_arith)
        requires
            wy == 65536 * 65536 * (c * v.y + s * v.x),
    ;
    assert(rodrigues_z(k, c, s, v) == 65536 * 65536 * c * v.z + 65536 * s * (0 * v.y - 0
        * v.x) + (65536 - c) * (0 * v.x + 0 * v.y + 65536 * v.z) * 65536);
    assert(65536 * 65536 * c * v.z + 65536 * s * (0 * v.y - 0 * v.x) + (65536 - c) * (0 * v.x
        + 0 * v.y + 65536 * v.z) * 65536 == wz) by (nonlinear_arith)
        requires
            wz == 65536 * 65536 * 65536 * v.z,
    ;
    assert(rodrigues_s(k, c, s, v) == w);
    assert(rodrigues_x(k, c, -s, w) == 65536 * 65536 * c * w.x + 65536 * (-s) * (0 * w.z
        - 65536 * w.y) + (65536 - c) * (0 * w.x + 0 * w.y + 65536 * w.z) * 0);
    let u: int = c * v.x - s * v.y;
    let t: int = c * v.y + s * v.x;
    assert(c * u + s * t == 65536 * 65536 * v.x) by (nonlinear_arith)
        requires
            u == c * v.x - s * v.y,
            t == c * v.y + s * v.x,
            c * c + s * s == 65536 * 65536,
    ;
    assert(c * t - s * u == 65536 * 65536 * v.y) by (nonlinear_arith)
        requires
            u == c * v.x - s * v.y,
            t == c * v.y + s * v.x,
            c * c + s * s == 65536 * 65536,
    ;
    assert(65536 * 65536 * c * wx + 65536 * (-s) * (0 * wz - 65536 * wy) + (65536 - c) * (0
        * wx + 0 * wy + 65536 * wz) * 0 == 79228162514264337593543950336 * v.x)
        by (nonlinear_arith)
        requires
            wx == 65536 * 65536 * u,
            wy == 65536 * 65536 * t,
            c * u + s * t == 65536 * 65536 * v.x,
    ;
    assert(rodrigues_y(k, c, -s, w) == 65536 * 65536 * c * w.y + 65536 * (-s) * (65536 * w.x
        - 0 * w.z) + (65536 - c) * (0 * w.x + 0 * w.y + 65536 * w.z) * 0);
    assert(65536 * 65536 * c * wy + 65536 * (-s) * (65536 * wx - 0 * wz) + (65536 - c) * (0
        * wx + 0 * wy + 65536 * wz) * 0 == 79228162514264337593543950336 * v.y)
        by (nonlinear_arith)
        requires
            wx == 65536 * 65536 * u,
            wy == 65536 * 65536 * t,
            c * t - s * u == 65536 * 65536 * v.y,
    ;
    assert(rodrigues_z(k, c, -s, w) == 65536 * 65536 * c * w.z + 65536 * (-s) * (0 * w.y - 0
        * w.x) + (65536 - c) * (0 * w.x + 0 * w.y + 65536 * w.z) * 65536);
    assert(65536 * 65536 * c * wz + 65536 * (-s) * (0 * wy - 0 * wx) + (65536 - c) * (0 * wx
        + 0 * wy + 65536 * wz) * 65536 == 79228162514264337593543950336 * v.z)
        by (nonlinear_arith)
        requires
            wz == 65536 * 65536 * 65536 * v.z,
            c * c + s * s == 65536 * 65536,
    ;
}

/// The basis after an axis-angle rotation: every axis is rotated by the
/// Rodrigues matrix, then clamped into the unit-sized range (a true
/// rotation of unit axes never reaches the clamp).
pub open spec fn rotate_basis_s(m: Mat3, axis: Vec3, c: int, s: int) -> Mat3 {
    let rm = rot_mat_s(axis, c, s);
    Mat3 {
        x_axis: clamp_s(mul_vec_s(rm, m.x_axis), -(UMAX as int), UMAX as int),
        y_axis: clamp_s(mul_vec_s(rm, m.y_axis), -(UMAX as int), UMAX as int),
        z_axis: clamp_s(mul_vec_s(rm, m.z_axis), -(UMAX as int), UMAX as int),
    }
}

impl Mat3 {
    /// The identity basis: unit axes along the coordinate directions.
    pub fn identity() -> (m: Mat3)
        ensures
            m == (Mat3 {
                x_axis: Vec3 { x: SCALE, y: 0, z: 0 },
                y_axis: Vec3 { x: 0, y: SCALE, z: 0 },
                z_axis: Vec3 { x: 0, y: 0, z: SCALE },
            }),
            mat_in(m, UMAX as int),
    {
        Mat3 {
            x_axis: Vec3 { x: SCALE, y: 0, z: 0 },
            y_axis: Vec3 { x: 0, y: SCALE, z: 0 },
            z_axis: Vec3 { x: 0, y: 0, z: SCALE },
        }
    }

    /// Applies the matrix to a vector.
    pub fn mul_vec(&self, v: Vec3) -> (r: Vec3)
        requires
            mat_in(*self, 3 * (SCALE as int)),
            vec_in(v, UMAX as int),
        ensures
            r == mul_vec_s(*self, v),
            vec_in(r, 18 * (SCALE as int)),
    {
        proof {
            lemma_scale_in(self.x_axis, v.x as int, 3 * (SCALE as int), UMAX as int);
            lemma_scale_in(self.y_axis, v.y as int, 3 * (SCALE as int), UMAX as int);
            lemma_scale_in(self.z_axis, v.z as int, 3 * (SCALE as int), UMAX as int);
        }
        let tx = self.x_axis.scale(v.x);
        let ty = self.y_axis.scale(v.y);
        let tz = self.z_axis.scale(v.z);
        tx.add(ty).add(tz)
    }
}

/// Builds the rotation matrix about `axis` (normalized internally) by
/// the angle whose fixed-point cosine and sine are `cos_t` and `sin_t`.
pub fn rotation_matrix_from_axis_angle(axis: Vec3, cos_t: i128, sin_t: i128) -> (m: Mat3)
    requires
        vec_in(axis, VMAX as int),
        -SCALE <= cos_t && cos_t <= SCALE,
        -SCALE <= sin_t && sin_t <= SCALE,
    ensures
        m == rot_mat_s(axis, cos_t as int, sin_t as int),
        mat_in(m, 3 * (SCALE as int)),
{
    let a = axis.normalized();
    let (x, y, z) = (a.x, a.y, a.z);
    let omc: i128 = SCALE - cos_t;
    proof {
        lemma_mul_abs(x as int, x as int, SCALE as int, SCALE as int);
        lemma_mul_abs(y as int, y as int, SCALE as int, SCALE as int);
        lemma_mul_abs(z as int, z as int, SCALE as int, SCALE as int);
        lemma_mul_abs(x as int, y as int, SCALE as int, SCALE as int);
        lemma_mul_abs(y as int, x as int, SCALE as int, SCALE as int);
        lemma_mul_abs(x as int, z as int, SCALE as int, SCALE as int);
        lemma_mul_abs(z as int, x as int, SCALE as int, SCALE as int);
        lemma_mul_abs(y as int, z as int, SCALE as int, SCALE as int);
        lemma_mul_abs(z as int, y as int, SCALE as int, SCALE as int);
        lemma_mul_abs(x as int, sin_t as int, SCALE as int, SCALE as int);
        lemma_mul_abs(y as int, sin_t as int, SCALE as int, SCALE as int);
        lemma_mul_abs(z as int, sin_t as int, SCALE as int, SCALE as int);
        lemma_tdiv_quotient_abs(x * x, SCALE as int, 4294967296);
        lemma_tdiv_quotient_abs(y * y, SCALE as int, 4294967296);
        lemma_tdiv_quotient_abs(z * z, SCALE as int, 4294967296);
        lemma_tdiv_quotient_abs(x * y, SCALE as int, 4294967296);
        lemma_tdiv_quotient_abs(y * x, SCALE as int, 4294967296);
        lemma_tdiv_quotient_abs(x * z, SCALE as int, 4294967296);
        lemma_tdiv_quotient_abs(z * x, SCALE as int, 4294967296);
        lemma_tdiv_quotient_abs(y * z, SCALE as int, 4294967296);
        lemma_tdiv_quotient_abs(z * y, SCALE as int, 4294967296);
        lemma_tdiv_quotient_abs(x * sin_t, SCALE as int, 4294967296);
        lemma_tdiv_quotient_abs(y * sin_t, SCALE as int, 4294967296);
        lemma_tdiv_quotient_abs(z * sin_t, SCALE as int, 4294967296);
    }
    let xx = mul_fx(x, x);
    let yy = mul_fx(y, y);
    let zz = mul_fx(z, z);
    let xy = mul_fx(x, y);
    let yx = mul_fx(y, x);
    let xz = mul_fx(x, z);
    let zx = mul_fx(z, x);
    let yz = mul_fx(y, z);
    let zy = mul_fx(z, y);
    let xs = mul_fx(x, sin_t);
    let ys = mul_fx(y, sin_t);
    let zs = mul_fx(z, sin_t);
    proof {
        lemma_mul_abs(xx as int, omc as int, SCALE as int, 2 * (SCALE as int));
        lemma_mul_abs(yy as int, omc as int, SCALE as int, 2 * (SCALE as int));
        lemma_mul_abs(zz as int, omc as int, SCALE as int, 2 * (SCALE as int));
        lemma_mul_abs(xy as int, omc as int, SCALE as int, 2 * (SCALE as int));
        lemma_mul_abs(yx as int, omc as int, SCALE as int, 2 * (SCALE as int));
        lemma_mul_abs(xz as int, omc as int, SCALE as int, 2 * (SCALE as int));
        lemma_mul_abs(zx as int, omc as int, SCALE as int, 2 * (SCALE as int));
        lemma_mul_abs(yz as int, omc as int, SCALE as int, 2 * (SCALE as int));
        lemma_mul_abs(zy as int, omc as int, SCALE as int, 2 * (SCALE as int));
        lemma_tdiv_quotient_abs(xx * omc, SCALE as int, 8589934592);
        lemma_tdiv_quotient_abs(yy * omc, SCALE as int, 8589934592);
        lemma_tdiv_quotient_abs(zz * omc, SCALE as int, 8589934592);
        lemma_tdiv_quotient_abs(xy * omc, SCALE as int, 8589934592);
        lemma_tdiv_quotient_abs(yx * omc, SCALE as int, 8589934592);
        lemma_tdiv_quotient_abs(xz * omc, SCALE as int, 8589934592);
        lemma_tdiv_quotient_abs(zx * omc, SCALE as int, 8589934592);
        lemma_tdiv_quotient_abs(yz * omc, SCALE as int, 8589934592);
        lemma_tdiv_quotient_abs(zy * omc, SCALE as int, 8589934592);
    }
    let m00 = cos_t + mul_fx(xx, omc);
    let m01 = mul_fx(xy, omc) - zs;
    let m02 = mul_fx(xz, omc) + ys;
    let m10 = mul_fx(yx, omc) + zs;
    let m11 = cos_t + mul_fx(yy, omc);
    let m12 = mul_fx(yz, omc) - xs;
    let m20 = mul_fx(zx, omc) - ys;
    let m21 = mul_fx(zy, omc) + xs;
    let m22 = cos_t + mul_fx(zz, omc);
    Mat3 {
        x_axis: Vec3 { x: m00, y: m10, z: m20 },
        y_axis: Vec3 { x: m01, y: m11, z: m21 },
        z_axis: Vec3 { x: m02, y: m12, z: m22 },
    }
}

} // verus!
