//! Ray-cylinder intersection: lateral surface through the rejected
//! quadratic, optional base and top caps as disks, nearest hit wins.

use vstd::prelude::*;
use crate::fixed::{
    divi, isqrt, lemma_mul_abs, lemma_sqrt_le, lemma_tdiv_abs, mul_fx, sqrt_s, tdiv, MAXC,
    SCALE, UMAX,
};
use crate::intersection::{min_hit, min_hit_s, wf_hit, Intersection};
use crate::material::{wf_material, Material};
use crate::plane::{disk_hit, disk_hit_s};
use crate::ray::{at_s, cand_point_s, wf_ray, Ray};
use crate::vec3::{
    add_s, dot_s, lemma_dot_abs, lemma_reject_in, lemma_scale_in, neg_s, normalized_s, reject_s,
    scale_s, sub_s, vec_in, Vec3,
};

verus! {

/// Finite cylinder given by its base centre, unit axis, height and
/// radius, with optional base and top caps.
#[derive(Clone, Copy, Debug, PartialEq, Eq, Structural)]
pub struct Cilinder {
    /// Centre of the base disk.
    pub cb: Vec3,
    /// Unit axis, pointing from the base toward the top.
    pub dc: Vec3,
    /// Height along the axis.
    pub height: i128,
    /// Radius of the lateral surface.
    pub radius: i128,
    /// Material of the cylinder.
    pub material: Material,
    /// Whether the base disk is part of the surface.
    pub has_base: bool,
    /// Whether the top disk is part of the surface.
    pub has_top: bool,
}

/// Base centre in the world cube, unit axis, sizes in range.
pub open spec fn wf_cilinder(c: Cilinder) -> bool {
    &&& vec_in(c.cb, MAXC as int)
    &&& vec_in(c.dc, UMAX as int)
    &&& 0 <= c.height && c.height <= MAXC
    &&& 0 <= c.radius && c.radius <= MAXC
    &&& wf_material(c.material)
}

/// A candidate root is kept only when its point is a usable hit whose
/// axial coordinate `(p - cb) . dc` lies within `[0, height]`.
pub open spec fn axial_point_s(cb: Vec3, dc: Vec3, height: int, ray: Ray, t: int) -> Option<Vec3> {
    match cand_point_s(ray, t) {
        Some(p) => {
            let h = dot_s(sub_s(p, cb), dc);
            if 0 <= h && h <= height {
                Some(p)
            } else {
                None
            }
        },
        None => None,
    }
}

/// Executable axial-bound filter shared by the cylinder and the cone.
pub fn axial_point(cb: Vec3, dc: Vec3, height: i128, ray: &Ray, t: i128) -> (res: Option<Vec3>)
    requires
        vec_in(cb, MAXC as int),
        vec_in(dc, UMAX as int),
        wf_ray(*ray),
    ensures
        res == axial_point_s(cb, dc, height as int, *ray, t as int),
        res matches Some(p) ==> vec_in(p, MAXC as int),
{
    match ray.cand_point(t) {
        Some(p) => {
            let d = p.sub(cb);
            let h = d.dot(dc);
            proof {
                lemma_dot_abs(d, dc, 2 * (MAXC as int), UMAX as int);
            }
            if h < 0 || h > height {
                None
            } else {
                Some(p)
            }
        },
        None => None,
    }
}

/// Intersection record for a lateral-surface root: the normal is the
/// rejection of `p - cb` from the axis, normalized (radially outward).
pub open spec fn cyl_inter_s(c: Cilinder, ray: Ray, t: int) -> Intersection {
    let p = at_s(ray, t);
    Intersection {
        t: t as i128,
        p,
        normal: normalized_s(reject_s(sub_s(p, c.cb), c.dc)),
        material: c.material,
    }
}

/// Lateral surface query: the quadratic `|reject(R(t) - cb, dc)| = r`
/// over the rejected direction and origin offset; each strictly positive
/// root is kept only inside the axial bounds, the smaller one wins.
pub open spec fn cyl_surface_hit_s(c: Cilinder, ray: Ray) -> Option<Intersection> {
    let w = sub_s(ray.p0, c.cb);
    let mdr = reject_s(ray.dr, c.dc);
    let mw = reject_s(w, c.dc);
    let a = dot_s(mdr, mdr);
    let b = 2 * dot_s(mdr, mw);
    let cc = dot_s(mw, mw) - tdiv(c.radius * c.radius, SCALE as int);
    let delta = b * b - 4 * a * cc;
    if a == 0 || delta < 0 {
        None
    } else {
        let sq = sqrt_s(delta);
        let t1 = tdiv((-b - sq) * (SCALE as int), 2 * a);
        let t2 = tdiv((-b + sq) * (SCALE as int), 2 * a);
        let o1 = axial_point_s(c.cb, c.dc, c.height as int, ray, t1);
        let o2 = axial_point_s(c.cb, c.dc, c.height as int, ray, t2);
        if o1 is Some && (o2 is None || t1 <= t2) {
            Some(cyl_inter_s(c, ray, t1))
        } else if o2 is Some {
            Some(cyl_inter_s(c, ray, t2))
        } else {
            None
        }
    }
}

/// Centre of the top disk: `cb + dc * height`.
pub open spec fn cyl_top_center_s(c: Cilinder) -> Vec3 {
    add_s(c.cb, scale_s(c.dc, c.height as int))
}

/// Full cylinder query: nearest among lateral surface, base disk and
/// top disk (each cap only when enabled).
pub open spec fn cyl_hit_s(c: Cilinder, ray: Ray) -> Option<Intersection> {
    let surface = cyl_surface_hit_s(c, ray);
    let base = if c.has_base {
        disk_hit_s(c.cb, neg_s(c.dc), c.radius as int, c.material, ray)
    } else {
        None
    };
    let top = if c.has_top {
        disk_hit_s(cyl_top_center_s(c), c.dc, c.radius as int, c.material, ray)
    } else {
        None
    };
    min_hit_s(min_hit_s(surface, base), top)
}

/// Any lateral hit the cylinder reports lies between its base and top:
/// the axial coordinate of the hit point is within `[0, height]`, even
/// when the underlying quadratic has other real roots.
pub proof fn lemma_cyl_surface_axial(c: Cilinder, ray: Ray, i: Intersection)
    requires
        cyl_surface_hit_s(c, ray) == Some(i),
    ensures
        0 <= dot_s(sub_s(i.p, c.cb), c.dc),
        dot_s(sub_s(i.p, c.cb), c.dc) <= c.height,
{
}

impl Cilinder {
    /// Builds a cylinder from its base centre, axis, sizes, caps and
    /// material.
    pub fn new(
        cb: Vec3,
        dc: Vec3,
        height: i128,
        radius: i128,
        has_base: bool,
        has_top: bool,
        material: Material,
    ) -> (c: Cilinder)
        ensures
            c == (Cilinder { cb, dc, height, radius, material, has_base, has_top }),
    {
        Cilinder { cb, dc, height, radius, material, has_base, has_top }
    }

    /// Returns the nearest usable hit of `ray` with the lateral surface.
    pub fn surface_intersects(&self, ray: &Ray) -> (res: Option<Intersection>)
        requires
            wf_cilinder(*self),
            wf_ray(*ray),
        ensures
            res == cyl_surface_hit_s(*self, *ray),
            wf_hit(res),
    {
        let w = ray.p0.sub(self.cb);
        let mdr = ray.dr.reject_from(self.dc);
        let mw = w.reject_from(self.dc);
        proof {
            lemma_reject_in(ray.dr, self.dc, UMAX as int);
            lemma_reject_in(w, self.dc, 2 * (MAXC as int));
        }
        let a = mdr.dot(mdr);
        let bd = mdr.dot(mw);
        let md = mw.dot(mw);
        proof {
            lemma_dot_abs(mdr, mdr, 13 * (UMAX as int), 13 * (UMAX as int));
            lemma_dot_abs(mdr, mw, 13 * (UMAX as int), 26 * (MAXC as int));
            lemma_dot_abs(mw, mw, 26 * (MAXC as int), 26 * (MAXC as int));
            lemma_mul_abs(self.radius as int, self.radius as int, MAXC as int, MAXC as int);
            lemma_tdiv_abs(
                self.radius * self.radius,
                SCALE as int,
                (MAXC as int) * (MAXC as int),
            );
        }
        let rr = mul_fx(self.radius, self.radius);
        let b: i128 = 2 * bd;
        let cc: i128 = md - rr;
        proof {
            lemma_mul_abs(b as int, b as int, 272193552384, 272193552384);
            lemma_mul_abs(4 * (a as int), cc as int, 531628032, 4642962726191104);
        }
        let delta: i128 = b * b - 4 * a * cc;
        if a == 0 || delta < 0 {
            return None;
        }
        let sq = isqrt(delta);
        proof {
            lemma_sqrt_le(delta as int, sq as int);
            lemma_mul_abs(
                (-b - sq) as int,
                SCALE as int,
                2305843009213693952,
                SCALE as int,
            );
            lemma_mul_abs(
                (-b + sq) as int,
                SCALE as int,
                2305843009213693952,
                SCALE as int,
            );
        }
        let t1 = divi((-b - sq) * SCALE, 2 * a);
        let t2 = divi((-b + sq) * SCALE, 2 * a);
        let o1 = crate::cilinder::axial_point(self.cb, self.dc, self.height, ray, t1);
        let o2 = crate::cilinder::axial_point(self.cb, self.dc, self.height, ray, t2);
        let picked: Option<(i128, Vec3)> = match (o1, o2) {
            (Some(p1), Some(p2)) => if t1 <= t2 {
                Some((t1, p1))
            } else {
                Some((t2, p2))
            },
            (Some(p1), None) => Some((t1, p1)),
            (None, Some(p2)) => Some((t2, p2)),
            (None, None) => None,
        };
        match picked {
            Some((t, p)) => {
                let d = p.sub(self.cb);
                let rej = d.reject_from(self.dc);
                proof {
                    lemma_reject_in(d, self.dc, 2 * (MAXC as int));
                }
                let n = rej.normalized();
                Some(Intersection { t, p, normal: n, material: self.material })
            },
            None => None,
        }
    }

    /// Returns the hit of `ray` with the base disk (normal `-dc`).
    pub fn base_intersects(&self, ray: &Ray) -> (res: Option<Intersection>)
        requires
            wf_cilinder(*self),
            wf_ray(*ray),
        ensures
            res == disk_hit_s(self.cb, neg_s(self.dc), self.radius as int, self.material, *ray),
            wf_hit(res),
    {
        let n = self.dc.neg();
        disk_hit(self.cb, n, self.radius, self.material, ray)
    }

    /// Returns the hit of `ray` with the top disk (normal `dc`).
    pub fn top_intersects(&self, ray: &Ray) -> (res: Option<Intersection>)
        requires
            wf_cilinder(*self),
            wf_ray(*ray),
        ensures
            res == disk_hit_s(cyl_top_center_s(*self), self.dc, self.radius as int, self.material,
                *ray),
            wf_hit(res),
    {
        proof {
            lemma_scale_in(self.dc, self.height as int, UMAX as int, MAXC as int);
        }
        let step = self.dc.scale(self.height);
        let tc = self.cb.add(step);
        disk_hit(tc, self.dc, self.radius, self.material, ray)
    }

    /// Returns the nearest usable intersection of `ray` with the whole
    /// cylinder (lateral surface and enabled caps), or `None`.
    pub fn intersects(&self, ray: &Ray) -> (res: Option<Intersection>)
        requires
            wf_cilinder(*self),
            wf_ray(*ray),
        ensures
            res == cyl_hit_s(*self, *ray),
            wf_hit(res),
    {
        let surface = self.surface_intersects(ray);
        let base = if self.has_base {
            self.base_intersects(ray)
        } else {
            None
        };
        let top = if self.has_top {
            self.top_intersects(ray)
        } else {
            None
        };
        min_hit(min_hit(surface, base), top)
    }
}

} // verus!
