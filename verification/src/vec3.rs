//! 3D vectors over fixed-point scalars.
//!
//! A `Vec3` stores three `i128` components counted in `1/SCALE` units; it
//! stands for positions, directions and RGB colour triples alike.  Every
//! operation has a spec-level mirror stating its value exactly, truncation
//! included, plus magnitude lemmas that feed the overflow proofs upstream.

use vstd::prelude::*;
use vstd::arithmetic::div_mod::lemma_div_by_multiple;
use crate::fixed::{
    divi, isqrt, is_sqrt, lemma_mul_abs, lemma_tdiv_quotient_abs,
    sqrt_s, tdiv, FXMAX, PVMAX, SCALE, UMAX, VMAX,
};

verus! {

/// Vector of three fixed-point scalars (components in `1/SCALE` units).
#[derive(Clone, Copy, Debug, PartialEq, Eq, Structural)]
pub struct Vec3 {
    pub x: i128,
    pub y: i128,
    pub z: i128,
}

/// Every component of `v` has magnitude at most `b`.
pub open spec fn vec_in(v: Vec3, b: int) -> bool {
    &&& -b <= v.x && v.x <= b
    &&& -b <= v.y && v.y <= b
    &&& -b <= v.z && v.z <= b
}

/// Component-wise sum.
pub open spec fn add_s(u: Vec3, v: Vec3) -> Vec3 {
    Vec3 { x: (u.x + v.x) as i128, y: (u.y + v.y) as i128, z: (u.z + v.z) as i128 }
}

/// Component-wise difference.
pub open spec fn sub_s(u: Vec3, v: Vec3) -> Vec3 {
    Vec3 { x: (u.x - v.x) as i128, y: (u.y - v.y) as i128, z: (u.z - v.z) as i128 }
}

/// Component-wise negation.
pub open spec fn neg_s(v: Vec3) -> Vec3 {
    Vec3 { x: (-v.x) as i128, y: (-v.y) as i128, z: (-v.z) as i128 }
}

/// Product with a plain (unscaled) integer.
pub open spec fn muli_s(v: Vec3, k: int) -> Vec3 {
    Vec3 { x: (v.x * k) as i128, y: (v.y * k) as i128, z: (v.z * k) as i128 }
}

/// Product with a fixed-point scalar: each component is `(c * k) / SCALE`.
pub open spec fn scale_s(v: Vec3, k: int) -> Vec3 {
    Vec3 {
        x: tdiv(v.x * k, SCALE as int) as i128,
        y: tdiv(v.y * k, SCALE as int) as i128,
        z: tdiv(v.z * k, SCALE as int) as i128,
    }
}

/// Component-wise fixed-point product (colour filtering).
pub open spec fn mul_elem_s(u: Vec3, v: Vec3) -> Vec3 {
    Vec3 {
        x: tdiv(u.x * v.x, SCALE as int) as i128,
        y: tdiv(u.y * v.y, SCALE as int) as i128,
        z: tdiv(u.z * v.z, SCALE as int) as i128,
    }
}

/// Dot product, rescaled back to `1/SCALE` units.
pub open spec fn dot_s(u: Vec3, v: Vec3) -> int {
    tdiv(u.x * v.x + u.y * v.y + u.z * v.z, SCALE as int)
}

/// Cross product (right-handed), rescaled back to `1/SCALE` units.
pub open spec fn cross_s(u: Vec3, v: Vec3) -> Vec3 {
    Vec3 {
        x: tdiv(u.y * v.z - u.z * v.y, SCALE as int) as i128,
        y: tdiv(u.z * v.x - u.x * v.z, SCALE as int) as i128,
        z: tdiv(u.x * v.y - u.y * v.x, SCALE as int) as i128,
    }
}

/// Raw sum of squared components (in `1/SCALE`-squared units).
pub open spec fn raw_len_sq_s(v: Vec3) -> int {
    v.x * v.x + v.y * v.y + v.z * v.z
}

/// Length: the integer square root of the raw squared length.
pub open spec fn len_s(v: Vec3) -> int {
    sqrt_s(raw_len_sq_s(v))
}

/// Unit vector along `v`; the zero vector stays zero.
pub open spec fn normalized_s(v: Vec3) -> Vec3 {
    if raw_len_sq_s(v) == 0 {
        Vec3 { x: 0, y: 0, z: 0 }
    } else {
        let l = len_s(v);
        Vec3 {
            x: tdiv(v.x * SCALE, l) as i128,
            y: tdiv(v.y * SCALE, l) as i128,
            z: tdiv(v.z * SCALE, l) as i128,
        }
    }
}

/// Component of `v` along the axis `a` (`a` unit-length).
pub open spec fn project_s(v: Vec3, a: Vec3) -> Vec3 {
    scale_s(a, dot_s(v, a))
}

/// Component of `v` perpendicular to the axis `a` (`a` unit-length).
pub open spec fn reject_s(v: Vec3, a: Vec3) -> Vec3 {
    sub_s(v, project_s(v, a))
}

/// Component-wise clamp into `[lo, hi]`.
pub open spec fn clamp_s(v: Vec3, lo: int, hi: int) -> Vec3 {
    Vec3 {
        x: (if v.x < lo { lo } else if v.x > hi { hi } else { v.x as int }) as i128,
        y: (if v.y < lo { lo } else if v.y > hi { hi } else { v.y as int }) as i128,
        z: (if v.z < lo { lo } else if v.z > hi { hi } else { v.z as int }) as i128,
    }
}

/// Magnitude bound for a dot product, raw and rescaled.
pub proof fn lemma_dot_abs(u: Vec3, v: Vec3, bu: int, bv: int)
    requires
        vec_in(u, bu),
        vec_in(v, bv),
        0 <= bu,
        0 <= bv,
    ensures
        -(bu * bv) <= u.x * v.x && u.x * v.x <= bu * bv,
        -(bu * bv) <= u.y * v.y && u.y * v.y <= bu * bv,
        -(bu * bv) <= u.z * v.z && u.z * v.z <= bu * bv,
        -(3 * bu * bv) <= u.x * v.x + u.y * v.y + u.z * v.z,
        u.x * v.x + u.y * v.y + u.z * v.z <= 3 * bu * bv,
        -(3 * bu * bv / (SCALE as int)) <= dot_s(u, v),
        dot_s(u, v) <= 3 * bu * bv / (SCALE as int),
{
    lemma_mul_abs(u.x as int, v.x as int, bu, bv);
    lemma_mul_abs(u.y as int, v.y as int, bu, bv);
    lemma_mul_abs(u.z as int, v.z as int, bu, bv);
    assert(0 <= bu * bv) by (nonlinear_arith)
        requires
            0 <= bu,
            0 <= bv,
    ;
    assert(3 * bu * bv == bu * bv + bu * bv + bu * bv) by (nonlinear_arith);
    lemma_tdiv_quotient_abs(u.x * v.x + u.y * v.y + u.z * v.z, SCALE as int, 3 * bu * bv);
}

/// Magnitude bound for a fixed-point scaling.
pub proof fn lemma_scale_in(v: Vec3, k: int, bv: int, bk: int)
    requires
        vec_in(v, bv),
        -bk <= k && k <= bk,
        0 <= bv,
        0 <= bk,
    ensures
        vec_in(scale_s(v, k), bv * bk / (SCALE as int)),
{
    lemma_mul_abs(v.x as int, k, bv, bk);
    lemma_mul_abs(v.y as int, k, bv, bk);
    lemma_mul_abs(v.z as int, k, bv, bk);
    assert(0 <= bv * bk) by (nonlinear_arith)
        requires
            0 <= bv,
            0 <= bk,
    ;
    lemma_tdiv_quotient_abs(v.x * k, SCALE as int, bv * bk);
    lemma_tdiv_quotient_abs(v.y * k, SCALE as int, bv * bk);
    lemma_tdiv_quotient_abs(v.z * k, SCALE as int, bv * bk);
}

/// Magnitude bound for a plain integer scaling.
pub proof fn lemma_muli_in(v: Vec3, k: int, bv: int, bk: int)
    requires
        vec_in(v, bv),
        -bk <= k && k <= bk,
        0 <= bv,
        0 <= bk,
        bv * bk <= FXMAX,
    ensures
        vec_in(muli_s(v, k), bv * bk),
{
    lemma_mul_abs(v.x as int, k, bv, bk);
    lemma_mul_abs(v.y as int, k, bv, bk);
    lemma_mul_abs(v.z as int, k, bv, bk);
}

/// Magnitude bounds for projection and rejection from a unit-sized axis:
/// the projection is at most twelve times, the rejection at most thirteen
/// times, the bound on the vector itself.
pub proof fn lemma_reject_in(v: Vec3, a: Vec3, bv: int)
    requires
        vec_in(v, bv),
        vec_in(a, UMAX as int),
        0 <= bv,
    ensures
        -(6 * bv) <= dot_s(v, a) && dot_s(v, a) <= 6 * bv,
        vec_in(project_s(v, a), 12 * bv),
        vec_in(reject_s(v, a), 13 * bv),
{
    lemma_dot_abs(v, a, bv, UMAX as int);
    assert(3 * bv * (UMAX as int) == (6 * bv) * (SCALE as int)) by (nonlinear_arith);
    assert(0 <= 6 * bv);
    lemma_div_by_multiple(6 * bv, SCALE as int);
    assert(3 * bv * (UMAX as int) / (SCALE as int) == 6 * bv);
    lemma_scale_in(a, dot_s(v, a), UMAX as int, 6 * bv);
    assert((UMAX as int) * (6 * bv) == (12 * bv) * (SCALE as int)) by (nonlinear_arith);
    lemma_div_by_multiple(12 * bv, SCALE as int);
    assert((UMAX as int) * (6 * bv) / (SCALE as int) == 12 * bv);
}

/// If `a` squares to at most the squared length, its magnitude is at most
/// the length's integer square root.
proof fn lemma_component_le_root(a: int, b: int, c: int, l: int)
    requires
        is_sqrt(a * a + b * b + c * c, l),
    ensures
        -l <= a && a <= l,
{
    assert(a * a + b * b + c * c < (l + 1) * (l + 1));
    assert(b * b >= 0 && c * c >= 0) by (nonlinear_arith);
    assert(-l <= a && a <= l) by (nonlinear_arith)
        requires
            0 <= l,
            a * a <= (l + 1) * (l + 1) - 1,
    ;
}

impl Vec3 {
    /// Builds the vector with the given components.
    pub fn new(x: i128, y: i128, z: i128) -> (r: Vec3)
        ensures
            r == (Vec3 { x, y, z }),
    {
        Vec3 { x, y, z }
    }

    /// The vector with all three components equal to `n`.
    pub fn splat(n: i128) -> (r: Vec3)
        ensures
            r == (Vec3 { x: n, y: n, z: n }),
    {
        Vec3 { x: n, y: n, z: n }
    }

    /// The vector with all three components equal to `a`.
    pub fn all(a: i128) -> (r: Vec3)
        ensures
            r == (Vec3 { x: a, y: a, z: a }),
    {
        Vec3 { x: a, y: a, z: a }
    }

    /// First component.
    pub fn x(&self) -> (r: i128)
        ensures
            r == self.x,
    {
        self.x
    }

    /// Second component.
    pub fn y(&self) -> (r: i128)
        ensures
            r == self.y,
    {
        self.y
    }

    /// Third component.
    pub fn z(&self) -> (r: i128)
        ensures
            r == self.z,
    {
        self.z
    }

    /// Vector sum.
    pub fn add(&self, rhs: Vec3) -> (r: Vec3)
        requires
            vec_in(*self, FXMAX / 2),
            vec_in(rhs, FXMAX / 2),
        ensures
            r == add_s(*self, rhs),
    {
        Vec3 { x: self.x + rhs.x, y: self.y + rhs.y, z: self.z + rhs.z }
    }

    /// Vector difference.
    pub fn sub(&self, rhs: Vec3) -> (r: Vec3)
        requires
            vec_in(*self, FXMAX / 2),
            vec_in(rhs, FXMAX / 2),
        ensures
            r == sub_s(*self, rhs),
    {
        Vec3 { x: self.x - rhs.x, y: self.y - rhs.y, z: self.z - rhs.z }
    }

    /// Negation.
    pub fn neg(&self) -> (r: Vec3)
        requires
            vec_in(*self, FXMAX / 2),
        ensures
            r == neg_s(*self),
    {
        Vec3 { x: -self.x, y: -self.y, z: -self.z }
    }

    /// Product with a plain (unscaled) integer factor.
    pub fn muli(&self, k: i128) -> (r: Vec3)
        requires
            vec_in(*self, VMAX as int),
            -VMAX <= k && k <= VMAX,
        ensures
            r == muli_s(*self, k as int),
    {
        proof {
            lemma_mul_abs(self.x as int, k as int, VMAX as int, VMAX as int);
            lemma_mul_abs(self.y as int, k as int, VMAX as int, VMAX as int);
            lemma_mul_abs(self.z as int, k as int, VMAX as int, VMAX as int);
        }
        Vec3 { x: self.x * k, y: self.y * k, z: self.z * k }
    }

    /// Product with a fixed-point scalar.
    pub fn scale(&self, k: i128) -> (r: Vec3)
        requires
            vec_in(*self, VMAX as int),
            -VMAX <= k && k <= VMAX,
        ensures
            r == scale_s(*self, k as int),
    {
        proof {
            lemma_mul_abs(self.x as int, k as int, VMAX as int, VMAX as int);
            lemma_mul_abs(self.y as int, k as int, VMAX as int, VMAX as int);
            lemma_mul_abs(self.z as int, k as int, VMAX as int, VMAX as int);
        }
        Vec3 {
            x: divi(self.x * k, SCALE),
            y: divi(self.y * k, SCALE),
            z: divi(self.z * k, SCALE),
        }
    }

    /// Component-wise fixed-point product (not the dot or cross product).
    pub fn mul_elem(&self, rhs: Vec3) -> (r: Vec3)
        requires
            vec_in(*self, VMAX as int),
            vec_in(rhs, VMAX as int),
        ensures
            r == mul_elem_s(*self, rhs),
    {
        proof {
            lemma_mul_abs(self.x as int, rhs.x as int, VMAX as int, VMAX as int);
            lemma_mul_abs(self.y as int, rhs.y as int, VMAX as int, VMAX as int);
            lemma_mul_abs(self.z as int, rhs.z as int, VMAX as int, VMAX as int);
        }
        Vec3 {
            x: divi(self.x * rhs.x, SCALE),
            y: divi(self.y * rhs.y, SCALE),
            z: divi(self.z * rhs.z, SCALE),
        }
    }

    /// Dot product.
    pub fn dot(&self, rhs: Vec3) -> (r: i128)
        requires
            vec_in(*self, VMAX as int),
            vec_in(rhs, VMAX as int),
        ensures
            r == dot_s(*self, rhs),
    {
        proof {
            lemma_dot_abs(*self, rhs, VMAX as int, VMAX as int);
        }
        let s: i128 = self.x * rhs.x + self.y * rhs.y + self.z * rhs.z;
        divi(s, SCALE)
    }

    /// Cross product (right-handed).
    pub fn cross(&self, rhs: Vec3) -> (r: Vec3)
        requires
            vec_in(*self, VMAX as int),
            vec_in(rhs, VMAX as int),
        ensures
            r == cross_s(*self, rhs),
    {
        proof {
            lemma_mul_abs(self.y as int, rhs.z as int, VMAX as int, VMAX as int);
            lemma_mul_abs(self.z as int, rhs.y as int, VMAX as int, VMAX as int);
            lemma_mul_abs(self.z as int, rhs.x as int, VMAX as int, VMAX as int);
            lemma_mul_abs(self.x as int, rhs.z as int, VMAX as int, VMAX as int);
            lemma_mul_abs(self.x as int, rhs.y as int, VMAX as int, VMAX as int);
            lemma_mul_abs(self.y as int, rhs.x as int, VMAX as int, VMAX as int);
        }
        Vec3 {
            x: divi(self.y * rhs.z - self.z * rhs.y, SCALE),
            y: divi(self.z * rhs.x - self.x * rhs.z, SCALE),
            z: divi(self.x * rhs.y - self.y * rhs.x, SCALE),
        }
    }

    /// Squared length, in `1/SCALE` units.
    pub fn length_squared(&self) -> (r: i128)
        requires
            vec_in(*self, VMAX as int),
        ensures
            r == dot_s(*self, *self),
    {
        self.dot(*self)
    }

    /// Squared length, in `1/SCALE` units.
    pub fn magnitude_squared(&self) -> (r: i128)
        requires
            vec_in(*self, VMAX as int),
        ensures
            r == dot_s(*self, *self),
    {
        self.length_squared()
    }

    /// Length, in `1/SCALE` units.
    pub fn length(&self) -> (r: i128)
        requires
            vec_in(*self, VMAX as int),
        ensures
            r == len_s(*self),
            is_sqrt(raw_len_sq_s(*self), r as int),
    {
        proof {
            lemma_dot_abs(*self, *self, VMAX as int, VMAX as int);
            assert(self.x * self.x >= 0 && self.y * self.y >= 0 && self.z * self.z >= 0)
                by (nonlinear_arith);
        }
        let s: i128 = self.x * self.x + self.y * self.y + self.z * self.z;
        isqrt(s)
    }

    /// Length, in `1/SCALE` units.
    pub fn magnitude(&self) -> (r: i128)
        requires
            vec_in(*self, VMAX as int),
        ensures
            r == len_s(*self),
            is_sqrt(raw_len_sq_s(*self), r as int),
    {
        self.length()
    }

    /// Unit vector along `self`; the zero vector stays zero.
    pub fn normalized(&self) -> (r: Vec3)
        requires
            vec_in(*self, VMAX as int),
        ensures
            r == normalized_s(*self),
            vec_in(r, SCALE as int),
    {
        proof {
            lemma_dot_abs(*self, *self, VMAX as int, VMAX as int);
            assert(self.x * self.x >= 0 && self.y * self.y >= 0 && self.z * self.z >= 0)
                by (nonlinear_arith);
        }
        let s: i128 = self.x * self.x + self.y * self.y + self.z * self.z;
        if s == 0 {
            return Vec3 { x: 0, y: 0, z: 0 };
        }
        let l = isqrt(s);
        proof {
            lemma_component_le_root(self.x as int, self.y as int, self.z as int, l as int);
            lemma_component_le_root(self.y as int, self.x as int, self.z as int, l as int);
            lemma_component_le_root(self.z as int, self.x as int, self.y as int, l as int);
            crate::fixed::lemma_sqrt_le(s as int, l as int);
            lemma_mul_abs(self.x as int, SCALE as int, l as int, SCALE as int);
            lemma_mul_abs(self.y as int, SCALE as int, l as int, SCALE as int);
            lemma_mul_abs(self.z as int, SCALE as int, l as int, SCALE as int);
            lemma_mul_abs(l as int, SCALE as int, 1152921504606846976, SCALE as int);
            assert(l >= 1) by (nonlinear_arith)
                requires
                    0 <= l,
                    1 <= s,
                    s < (l + 1) * (l + 1),
            ;
            lemma_tdiv_quotient_abs(self.x * SCALE, l as int, l * (SCALE as int));
            lemma_tdiv_quotient_abs(self.y * SCALE, l as int, l * (SCALE as int));
            lemma_tdiv_quotient_abs(self.z * SCALE, l as int, l * (SCALE as int));
            lemma_div_by_multiple(SCALE as int, l as int);
            assert(l * (SCALE as int) == (SCALE as int) * l) by (nonlinear_arith);
        }
        Vec3 {
            x: divi(self.x * SCALE, l),
            y: divi(self.y * SCALE, l),
            z: divi(self.z * SCALE, l),
        }
    }

    /// Component of `self` along the unit axis `a`.
    pub fn project_onto(&self, a: Vec3) -> (r: Vec3)
        requires
            vec_in(*self, PVMAX as int),
            vec_in(a, UMAX as int),
        ensures
            r == project_s(*self, a),
            vec_in(r, 12 * (PVMAX as int)),
    {
        let d = self.dot(a);
        proof {
            lemma_dot_abs(*self, a, PVMAX as int, UMAX as int);
            assert(3 * (PVMAX as int) * (UMAX as int) / (SCALE as int) == 6 * (PVMAX as int));
            lemma_scale_in(a, d as int, UMAX as int, 6 * (PVMAX as int));
            assert((UMAX as int) * (6 * (PVMAX as int)) / (SCALE as int) == 12 * (PVMAX as int));
        }
        a.scale(d)
    }

    /// Component of `self` perpendicular to the unit axis `a`.
    pub fn reject_from(&self, a: Vec3) -> (r: Vec3)
        requires
            vec_in(*self, PVMAX as int),
            vec_in(a, UMAX as int),
        ensures
            r == reject_s(*self, a),
            vec_in(r, 13 * (PVMAX as int)),
    {
        let p = self.project_onto(a);
        self.sub(p)
    }

    /// Component-wise clamp into `[lo, hi]`.
    pub fn clamp(&self, lo: i128, hi: i128) -> (r: Vec3)
        requires
            lo <= hi,
        ensures
            r == clamp_s(*self, lo as int, hi as int),
    {
        let x: i128 = if self.x < lo { lo } else if self.x > hi { hi } else { self.x };
        let y: i128 = if self.y < lo { lo } else if self.y > hi { hi } else { self.y };
        let z: i128 = if self.z < lo { lo } else if self.z > hi { hi } else { self.z };
        Vec3 { x, y, z }
    }

    /// Scales an RGB triple from `[0, 1]` units up by 255 (no clamping,
    /// as the byte conversion saturates separately).
    pub fn rgb_255(&self) -> (r: Vec3)
        requires
            vec_in(*self, VMAX as int),
        ensures
            r == muli_s(*self, 255),
    {
        self.muli(255)
    }

    /// Scales an RGB triple from `[0, 255]` units down to `[0, 1]` units.
    pub fn rgb_normal(&self) -> (r: Vec3)
        requires
            vec_in(*self, VMAX as int),
        ensures
            r.x == tdiv(self.x as int, 255),
            r.y == tdiv(self.y as int, 255),
            r.z == tdiv(self.z as int, 255),
    {
        Vec3 { x: divi(self.x, 255), y: divi(self.y, 255), z: divi(self.z, 255) }
    }
}

} // verus!
