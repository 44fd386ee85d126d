//! Phong materials: ambient, diffuse and specular RGB weights plus a
//! whole-number shininess exponent.

use vstd::prelude::*;
use crate::fixed::{lemma_mul_abs, lemma_tdiv_quotient_abs, lemma_tdiv_sign, FXMAX, MAXC, SCALE};
use crate::vec3::{mul_elem_s, scale_s, Vec3};

verus! {

/// Per-surface Phong coefficients.  The three weights are RGB triples in
/// `[0, 1]` of real value; the exponent `e` sharpens the highlight.
#[derive(Clone, Copy, Debug, PartialEq, Eq, Structural)]
pub struct Material {
    /// Ambient coefficient.
    pub k_amb: Vec3,
    /// Diffuse coefficient.
    pub k_dif: Vec3,
    /// Specular coefficient.
    pub k_esp: Vec3,
    /// Specular exponent (shininess).
    pub e: u32,
}

/// The components of a colour triple are non-negative and in range.
pub open spec fn color_in(v: Vec3) -> bool {
    &&& 0 <= v.x && v.x <= MAXC
    &&& 0 <= v.y && v.y <= MAXC
    &&& 0 <= v.z && v.z <= MAXC
}

/// The components of a colour triple lie in `[0, b]`.
pub open spec fn color_le(v: Vec3, b: int) -> bool {
    &&& 0 <= v.x && v.x <= b
    &&& 0 <= v.y && v.y <= b
    &&& 0 <= v.z && v.z <= b
}

/// Scaling a colour by a non-negative scalar keeps it a colour, with the
/// bound scaled down by `SCALE`.
pub proof fn lemma_scale_color(u: Vec3, k: int, bu: int, bk: int)
    requires
        color_le(u, bu),
        0 <= k && k <= bk,
        bu * bk <= FXMAX,
    ensures
        color_le(scale_s(u, k), bu * bk / (SCALE as int)),
{
    lemma_mul_abs(u.x as int, k, bu, bk);
    lemma_mul_abs(u.y as int, k, bu, bk);
    lemma_mul_abs(u.z as int, k, bu, bk);
    assert(0 <= bu * bk && 0 <= u.x * k && 0 <= u.y * k && 0 <= u.z * k) by (nonlinear_arith)
        requires
            0 <= u.x && 0 <= u.y && 0 <= u.z && 0 <= k && 0 <= bu && 0 <= bk,
    ;
    lemma_tdiv_quotient_abs(u.x * k, SCALE as int, bu * bk);
    lemma_tdiv_quotient_abs(u.y * k, SCALE as int, bu * bk);
    lemma_tdiv_quotient_abs(u.z * k, SCALE as int, bu * bk);
    lemma_tdiv_sign(u.x * k, SCALE as int);
    lemma_tdiv_sign(u.y * k, SCALE as int);
    lemma_tdiv_sign(u.z * k, SCALE as int);
}

/// The component-wise product of two colours is a colour, with the
/// product bound scaled down by `SCALE`.
pub proof fn lemma_elem_color(u: Vec3, v: Vec3, bu: int, bv: int)
    requires
        color_le(u, bu),
        color_le(v, bv),
        bu * bv <= FXMAX,
    ensures
        color_le(mul_elem_s(u, v), bu * bv / (SCALE as int)),
{
    lemma_mul_abs(u.x as int, v.x as int, bu, bv);
    lemma_mul_abs(u.y as int, v.y as int, bu, bv);
    lemma_mul_abs(u.z as int, v.z as int, bu, bv);
    assert(0 <= bu * bv && 0 <= u.x * v.x && 0 <= u.y * v.y && 0 <= u.z * v.z)
        by (nonlinear_arith)
        requires
            0 <= u.x && 0 <= u.y && 0 <= u.z && 0 <= v.x && 0 <= v.y && 0 <= v.z && 0 <= bu
                && 0 <= bv,
    ;
    lemma_tdiv_quotient_abs(u.x * v.x, SCALE as int, bu * bv);
    lemma_tdiv_quotient_abs(u.y * v.y, SCALE as int, bu * bv);
    lemma_tdiv_quotient_abs(u.z * v.z, SCALE as int, bu * bv);
    lemma_tdiv_sign(u.x * v.x, SCALE as int);
    lemma_tdiv_sign(u.y * v.y, SCALE as int);
    lemma_tdiv_sign(u.z * v.z, SCALE as int);
}

/// All three coefficient triples are colour triples.
pub open spec fn wf_material(m: Material) -> bool {
    &&& color_in(m.k_amb)
    &&& color_in(m.k_dif)
    &&& color_in(m.k_esp)
}

impl Material {
    /// Builds a material from its coefficients and exponent.
    pub fn new(k_amb: Vec3, k_dif: Vec3, k_esp: Vec3, e: u32) -> (m: Material)
        ensures
            m == (Material { k_amb, k_dif, k_esp, e }),
    {
        Material { k_amb, k_dif, k_esp, e }
    }

    /// Uniform light-grey material (all weights 0.8).
    pub fn white() -> (m: Material)
        ensures
            m == (Material {
                k_amb: Vec3 { x: 52429, y: 52429, z: 52429 },
                k_dif: Vec3 { x: 52429, y: 52429, z: 52429 },
                k_esp: Vec3 { x: 52429, y: 52429, z: 52429 },
                e: 15,
            }),
            wf_material(m),
    {
        let k = Vec3 { x: 52429, y: 52429, z: 52429 };
        Material { k_amb: k, k_dif: k, k_esp: k, e: 15 }
    }

    /// Red-tinted material (red weight 0.8, the others 0.3).
    pub fn red() -> (m: Material)
        ensures
            m == (Material {
                k_amb: Vec3 { x: 52429, y: 19661, z: 19661 },
                k_dif: Vec3 { x: 52429, y: 19661, z: 19661 },
                k_esp: Vec3 { x: 52429, y: 19661, z: 19661 },
                e: 15,
            }),
            wf_material(m),
    {
        let k = Vec3 { x: 52429, y: 19661, z: 19661 };
        Material { k_amb: k, k_dif: k, k_esp: k, e: 15 }
    }

    /// Green-tinted material (green weight 0.8, the others 0.3).
    pub fn green() -> (m: Material)
        ensures
            m == (Material {
                k_amb: Vec3 { x: 19661, y: 52429, z: 19661 },
                k_dif: Vec3 { x: 19661, y: 52429, z: 19661 },
                k_esp: Vec3 { x: 19661, y: 52429, z: 19661 },
                e: 15,
            }),
            wf_material(m),
    {
        let k = Vec3 { x: 19661, y: 52429, z: 19661 };
        Material { k_amb: k, k_dif: k, k_esp: k, e: 15 }
    }

    /// Blue-tinted material (blue weight 0.8, the others 0.3).
    pub fn blue() -> (m: Material)
        ensures
            m == (Material {
                k_amb: Vec3 { x: 19661, y: 19661, z: 52429 },
                k_dif: Vec3 { x: 19661, y: 19661, z: 52429 },
                k_esp: Vec3 { x: 19661, y: 19661, z: 52429 },
                e: 15,
            }),
            wf_material(m),
    {
        let k = Vec3 { x: 19661, y: 19661, z: 52429 };
        Material { k_amb: k, k_dif: k, k_esp: k, e: 15 }
    }
}

} // verus!
