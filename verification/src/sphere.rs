//! Ray-sphere intersection: the quadratic `|R(t) - C| = r` solved in
//! fixed point, keeping the nearer strictly-positive root.

use vstd::prelude::*;
use crate::fixed::{
    divi, isqrt, lemma_mul_abs, lemma_sqrt_le, lemma_tdiv_abs, mul_fx, sqrt_s, tdiv, MAXC,
    SCALE, UMAX,
};
use crate::intersection::{wf_hit, Intersection};
use crate::material::{wf_material, Material};
use crate::ray::{at_s, cand_valid_s, wf_ray, Ray};
use crate::vec3::{dot_s, lemma_dot_abs, normalized_s, sub_s, vec_in, Vec3};

verus! {

/// Sphere given by its centre and radius.
#[derive(Clone, Copy, Debug, PartialEq, Eq, Structural)]
pub struct Sphere {
    /// Centre of the sphere.
    pub pos: Vec3,
    /// Radius of the sphere.
    pub radius: i128,
    /// Material of the sphere.
    pub material: Material,
}

/// Centre in the world cube, radius non-negative and in range.
pub open spec fn wf_sphere(s: Sphere) -> bool {
    &&& vec_in(s.pos, MAXC as int)
    &&& 0 <= s.radius && s.radius <= MAXC
    &&& wf_material(s.material)
}

/// The intersection record for the root `t`: point on the ray, outward
/// normal along `p - centre`.
pub open spec fn sphere_inter_s(s: Sphere, ray: Ray, t: int) -> Intersection {
    let p = at_s(ray, t);
    Intersection {
        t: t as i128,
        p,
        normal: normalized_s(sub_s(p, s.pos)),
        material: s.material,
    }
}

/// Full result of the sphere query: solve `a t^2 + b t + c = 0` with
/// `a = |dr|^2`, `b = 2 dr.(p0-C)`, `c = |p0-C|^2 - r^2`, and keep the
/// nearer usable root (positive, in range); no real root, none.
pub open spec fn sphere_hit_s(s: Sphere, ray: Ray) -> Option<Intersection> {
    let oc = sub_s(ray.p0, s.pos);
    let a = dot_s(ray.dr, ray.dr);
    let b = 2 * dot_s(ray.dr, oc);
    let c = dot_s(oc, oc) - tdiv(s.radius * s.radius, SCALE as int);
    let delta = b * b - 4 * a * c;
    if a == 0 || delta < 0 {
        None
    } else {
        let sq = sqrt_s(delta);
        let t1 = tdiv((-b - sq) * (SCALE as int), 2 * a);
        let t2 = tdiv((-b + sq) * (SCALE as int), 2 * a);
        if cand_valid_s(ray, t1) && (!cand_valid_s(ray, t2) || t1 <= t2) {
            Some(sphere_inter_s(s, ray, t1))
        } else if cand_valid_s(ray, t2) {
            Some(sphere_inter_s(s, ray, t2))
        } else {
            None
        }
    }
}

impl Sphere {
    /// Builds a sphere from its centre, radius and material.
    pub fn new(pos: Vec3, radius: i128, material: Material) -> (s: Sphere)
        ensures
            s == (Sphere { pos, radius, material }),
    {
        Sphere { pos, radius, material }
    }

    /// Returns the nearest usable intersection of `ray` with the sphere,
    /// or `None` when the ray misses it.
    pub fn intersects(&self, ray: &Ray) -> (res: Option<Intersection>)
        requires
            wf_sphere(*self),
            wf_ray(*ray),
        ensures
            res == sphere_hit_s(*self, *ray),
            wf_hit(res),
    {
        let oc = ray.p0.sub(self.pos);
        let a = ray.dr.dot(ray.dr);
        proof {
            lemma_dot_abs(ray.dr, ray.dr, UMAX as int, UMAX as int);
            lemma_dot_abs(ray.dr, oc, UMAX as int, 2 * (MAXC as int));
        }
        let bd = ray.dr.dot(oc);
        let b: i128 = 2 * bd;
        proof {
            lemma_mul_abs(self.radius as int, self.radius as int, MAXC as int, MAXC as int);
            lemma_tdiv_abs(
                self.radius * self.radius,
                SCALE as int,
                (MAXC as int) * (MAXC as int),
            );
            lemma_dot_abs(oc, oc, 2 * (MAXC as int), 2 * (MAXC as int));
        }
        let rr = mul_fx(self.radius, self.radius);
        let cd = oc.dot(oc);
        let c: i128 = cd - rr;
        proof {
            lemma_mul_abs(b as int, b as int, 1610612736, 1610612736);
            lemma_mul_abs(4 * (a as int), c as int, 3145728, 4504424261091328);
        }
        let delta: i128 = b * b - 4 * a * c;
        if a == 0 || delta < 0 {
            return None;
        }
        let sq = isqrt(delta);
        proof {
            lemma_sqrt_le(delta as int, sq as int);
            lemma_mul_abs(
                (-b - sq) as int,
                SCALE as int,
                1152921506217459712,
                SCALE as int,
            );
            lemma_mul_abs(
                (-b + sq) as int,
                SCALE as int,
                1152921506217459712,
                SCALE as int,
            );
        }
        let t1 = divi((-b - sq) * SCALE, 2 * a);
        let t2 = divi((-b + sq) * SCALE, 2 * a);
        let c1 = ray.cand_point(t1);
        let c2 = ray.cand_point(t2);
        let picked: Option<(i128, Vec3)> = match (c1, c2) {
            (Some(p1), Some(p2)) => if t1 <= t2 {
                Some((t1, p1))
            } else {
                Some((t2, p2))
            },
            (Some(p1), None) => Some((t1, p1)),
            (None, Some(p2)) => Some((t2, p2)),
            (None, None) => None,
        };
        match picked {
            Some((t, p)) => {
                let d = p.sub(self.pos);
                let n = d.normalized();
                Some(Intersection { t, p, normal: n, material: self.material })
            },
            None => None,
        }
    }
}

} // verus!
