//! Ray-plane intersection, and the bounded disk test the cylinder and
//! cone caps reuse.

use vstd::prelude::*;
use crate::fixed::{
    divi, lemma_mul_abs, mul_fx, tdiv, MAXC, SCALE, UMAX,
};
use crate::intersection::{wf_hit, Intersection};
use crate::material::{wf_material, Material};
use crate::ray::{at_s, cand_point_s, cand_valid_s, wf_ray, Ray};
use crate::vec3::{dot_s, lemma_dot_abs, sub_s, vec_in, Vec3};

verus! {

/// Plane given by one known surface point and its unit normal.
#[derive(Clone, Copy, Debug, PartialEq, Eq, Structural)]
pub struct Plane {
    /// A known point of the plane.
    pub pc: Vec3,
    /// Unit normal of the plane (kept as given; no auto-facing).
    pub normal: Vec3,
    /// Material of the plane.
    pub material: Material,
}

/// Point in the world cube, unit-sized normal, well-formed material.
pub open spec fn wf_plane(pl: Plane) -> bool {
    &&& vec_in(pl.pc, MAXC as int)
    &&& vec_in(pl.normal, UMAX as int)
    &&& wf_material(pl.material)
}

/// Full result of the plane query: solve `(R(t) - pc) . n = 0`; a zero
/// denominator means the ray runs parallel to the plane and misses.
pub open spec fn plane_hit_s(pl: Plane, ray: Ray) -> Option<Intersection> {
    let bottom = dot_s(ray.dr, pl.normal);
    if bottom == 0 {
        None
    } else {
        let t = tdiv(-dot_s(sub_s(ray.p0, pl.pc), pl.normal) * (SCALE as int), bottom);
        if cand_valid_s(ray, t) {
            Some(Intersection {
                t: t as i128,
                p: at_s(ray, t),
                normal: pl.normal,
                material: pl.material,
            })
        } else {
            None
        }
    }
}

/// A ray parallel to the plane never intersects it, whatever its origin
/// and whatever known point defines the plane.
pub proof fn lemma_plane_parallel(pl: Plane, ray: Ray)
    requires
        dot_s(ray.dr, pl.normal) == 0,
    ensures
        plane_hit_s(pl, ray) is None,
{
}

/// Full result of a disk query (a plane hit within `radius` of `center`);
/// the caps of cylinders and cones are such disks.
pub open spec fn disk_hit_s(
    center: Vec3,
    normal: Vec3,
    radius: int,
    material: Material,
    ray: Ray,
) -> Option<Intersection> {
    let bottom = dot_s(ray.dr, normal);
    if bottom == 0 {
        None
    } else {
        let t = tdiv(-dot_s(sub_s(ray.p0, center), normal) * (SCALE as int), bottom);
        match cand_point_s(ray, t) {
            Some(p) => {
                let d = sub_s(p, center);
                if dot_s(d, d) > tdiv(radius * radius, SCALE as int) {
                    None
                } else {
                    Some(Intersection { t: t as i128, p, normal, material })
                }
            },
            None => None,
        }
    }
}

/// Executable disk query; `center` may stand a little outside the world
/// cube (the top cap centre of a cylinder does), `normal` is unit.
pub fn disk_hit(
    center: Vec3,
    normal: Vec3,
    radius: i128,
    material: Material,
    ray: &Ray,
) -> (res: Option<Intersection>)
    requires
        vec_in(center, 4 * (MAXC as int)),
        vec_in(normal, UMAX as int),
        0 <= radius && radius <= MAXC,
        wf_material(material),
        wf_ray(*ray),
    ensures
        res == disk_hit_s(center, normal, radius as int, material, *ray),
        wf_hit(res),
{
    let bottom = ray.dr.dot(normal);
    proof {
        lemma_dot_abs(ray.dr, normal, UMAX as int, UMAX as int);
    }
    if bottom == 0 {
        return None;
    }
    let w = ray.p0.sub(center);
    let nd = w.dot(normal);
    proof {
        lemma_dot_abs(w, normal, 5 * (MAXC as int), UMAX as int);
        lemma_mul_abs(
            -(nd as int),
            SCALE as int,
            3 * 5 * (MAXC as int) * (UMAX as int) / (SCALE as int),
            SCALE as int,
        );
    }
    let t = divi(-nd * SCALE, bottom);
    match ray.cand_point(t) {
        Some(p) => {
            let d = p.sub(center);
            let dd = d.dot(d);
            proof {
                lemma_dot_abs(d, d, 5 * (MAXC as int), 5 * (MAXC as int));
                lemma_mul_abs(radius as int, radius as int, MAXC as int, MAXC as int);
            }
            let rr = mul_fx(radius, radius);
            if dd > rr {
                None
            } else {
                Some(Intersection { t, p, normal, material })
            }
        },
        None => None,
    }
}

impl Plane {
    /// Builds a plane from a known point, its unit normal and a material.
    pub fn new(pc: Vec3, normal: Vec3, material: Material) -> (pl: Plane)
        ensures
            pl == (Plane { pc, normal, material }),
    {
        Plane { pc, normal, material }
    }

    /// Returns the intersection of `ray` with the plane, or `None` when
    /// the ray runs parallel to it or hits it behind the origin.
    pub fn intersects(&self, ray: &Ray) -> (res: Option<Intersection>)
        requires
            wf_plane(*self),
            wf_ray(*ray),
        ensures
            res == plane_hit_s(*self, *ray),
            wf_hit(res),
    {
        let bottom = ray.dr.dot(self.normal);
        proof {
            lemma_dot_abs(ray.dr, self.normal, UMAX as int, UMAX as int);
        }
        if bottom == 0 {
            return None;
        }
        let w = ray.p0.sub(self.pc);
        let nd = w.dot(self.normal);
        proof {
            lemma_dot_abs(w, self.normal, 2 * (MAXC as int), UMAX as int);
            lemma_mul_abs(-(nd as int), SCALE as int, 805306368, SCALE as int);
        }
        let t = divi(-nd * SCALE, bottom);
        match ray.cand_point(t) {
            Some(p) => Some(Intersection {
                t,
                p,
                normal: self.normal,
                material: self.material,
            }),
            None => None,
        }
    }
}

} // verus!
