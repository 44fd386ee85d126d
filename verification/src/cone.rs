//! Ray-cone intersection: the similar-triangles quadratic over projected
//! and rejected components, with both roots tested against the axial
//! bounds (the algebraic surface is a double-napped cone, so a root on
//! the mirrored nappe must be rejected even when its parameter is
//! positive), plus an optional base disk.

use vstd::prelude::*;
use crate::cilinder::{axial_point, axial_point_s};
use crate::fixed::{
    divi, isqrt, lemma_mul_abs, lemma_sqrt_le, lemma_tdiv_quotient_abs, mul_fx, sqrt_s, tdiv,
    MAXC, SCALE, UMAX,
};
use crate::intersection::{min_hit, min_hit_s, wf_hit, Intersection};
use crate::material::{wf_material, Material};
use crate::plane::{disk_hit, disk_hit_s};
use crate::ray::{at_s, wf_ray, Ray};
use crate::vec3::{
    add_s, dot_s, lemma_dot_abs, lemma_reject_in, lemma_scale_in, neg_s, normalized_s, project_s,
    reject_s, scale_s, sub_s, vec_in, Vec3,
};

verus! {

/// Finite cone given by its base centre, unit axis toward the apex,
/// height and base radius, with an optional base disk.
#[derive(Clone, Copy, Debug, PartialEq, Eq, Structural)]
pub struct Cone {
    /// Centre of the base disk.
    pub cb: Vec3,
    /// Unit axis, pointing from the base toward the apex.
    pub dc: Vec3,
    /// Height from base to apex along the axis.
    pub height: i128,
    /// Radius of the base disk.
    pub radius: i128,
    /// Material of the cone.
    pub material: Material,
    /// Whether the base disk is part of the surface.
    pub has_base: bool,
}

/// Base centre in the world cube, unit axis, sizes in range.
pub open spec fn wf_cone(c: Cone) -> bool {
    &&& vec_in(c.cb, MAXC as int)
    &&& vec_in(c.dc, UMAX as int)
    &&& 0 <= c.height && c.height <= MAXC
    &&& 0 <= c.radius && c.radius <= MAXC
    &&& wf_material(c.material)
}

/// Apex of the cone: `cb + dc * height`.
pub open spec fn cone_vertex_s(c: Cone) -> Vec3 {
    add_s(c.cb, scale_s(c.dc, c.height as int))
}

/// Intersection record for a lateral-surface root: the normal is the
/// axis rejected from the unit slant direction through the hit point,
/// normalized (pointing away from the surface).
pub open spec fn cone_inter_s(c: Cone, ray: Ray, t: int) -> Intersection {
    let p = at_s(ray, t);
    let pv = normalized_s(sub_s(p, cone_vertex_s(c)));
    Intersection {
        t: t as i128,
        p,
        normal: normalized_s(reject_s(c.dc, pv)),
        material: c.material,
    }
}

/// Lateral surface query, written over the rejected components `M(v)`
/// and projected components `Q(v)` with `h2 = h^2` and `r2 = r^2`:
/// `a = h2 |M(dr)|^2 - r2 |Q(dr)|^2`,
/// `b = 2 (h2 M(dr).M(w) + r2 Q(dr).(h dc - Q(w)))`,
/// `c = h2 |M(w)|^2 - r2 |Q(w) - h dc|^2`, where `w = p0 - cb`.
/// Both roots are tested against the axial bounds before the smaller
/// surviving one is kept.
pub open spec fn cone_surface_hit_s(c: Cone, ray: Ray) -> Option<Intersection> {
    let w = sub_s(ray.p0, c.cb);
    let mdr = reject_s(ray.dr, c.dc);
    let mw = reject_s(w, c.dc);
    let qdr = project_s(ray.dr, c.dc);
    let qw = project_s(w, c.dc);
    let hdc = scale_s(c.dc, c.height as int);
    let h2 = tdiv(c.height * c.height, SCALE as int);
    let r2 = tdiv(c.radius * c.radius, SCALE as int);
    let a = tdiv(h2 * dot_s(mdr, mdr), SCALE as int) - tdiv(
        r2 * dot_s(qdr, qdr),
        SCALE as int,
    );
    let b = 2 * (tdiv(h2 * dot_s(mdr, mw), SCALE as int) + tdiv(
        r2 * dot_s(qdr, sub_s(hdc, qw)),
        SCALE as int,
    ));
    let cc = tdiv(h2 * dot_s(mw, mw), SCALE as int) - tdiv(
        r2 * dot_s(sub_s(qw, hdc), sub_s(qw, hdc)),
        SCALE as int,
    );
    let delta = b * b - 4 * a * cc;
    if a == 0 || delta < 0 {
        None
    } else {
        let sq = sqrt_s(delta);
        let t1 = tdiv((-b - sq) * (SCALE as int), 2 * a);
        let t2 = tdiv((-b + sq) * (SCALE as int), 2 * a);
        let o1 = axial_point_s(c.cb, c.dc, c.height as int, ray, t1);
        let o2 = axial_point_s(c.cb, c.dc, c.height as int, ray, t2);
        if o1 is Some && (o2 is None || t1 <= t2) {
            Some(cone_inter_s(c, ray, t1))
        } else if o2 is Some {
            Some(cone_inter_s(c, ray, t2))
        } else {
            None
        }
    }
}

/// Full cone query: nearest among lateral surface and base disk (the
/// base only when enabled).
pub open spec fn cone_hit_s(c: Cone, ray: Ray) -> Option<Intersection> {
    let surface = cone_surface_hit_s(c, ray);
    let base = if c.has_base {
        disk_hit_s(c.cb, neg_s(c.dc), c.radius as int, c.material, ray)
    } else {
        None
    };
    min_hit_s(surface, base)
}

/// Any lateral hit the cone reports lies between its base and apex:
/// the axial coordinate of the hit point is within `[0, height]`, even
/// when the quadratic has another positive root on the mirrored nappe.
pub proof fn lemma_cone_surface_axial(c: Cone, ray: Ray, i: Intersection)
    requires
        cone_surface_hit_s(c, ray) == Some(i),
    ensures
        0 <= dot_s(sub_s(i.p, c.cb), c.dc),
        dot_s(sub_s(i.p, c.cb), c.dc) <= c.height,
{
}

impl Cone {
    /// Builds a cone from its base centre, axis, sizes, base flag and
    /// material.
    pub fn new(
        cb: Vec3,
        dc: Vec3,
        height: i128,
        radius: i128,
        has_base: bool,
        material: Material,
    ) -> (c: Cone)
        ensures
            c == (Cone { cb, dc, height, radius, material, has_base }),
    {
        Cone { cb, dc, height, radius, material, has_base }
    }

    /// Returns the nearest usable hit of `ray` with the lateral surface.
    pub fn surface_intersects(&self, ray: &Ray) -> (res: Option<Intersection>)
        requires
            wf_cone(*self),
            wf_ray(*ray),
        ensures
            res == cone_surface_hit_s(*self, *ray),
            wf_hit(res),
    {
        let w = ray.p0.sub(self.cb);
        let mdr = ray.dr.reject_from(self.dc);
        let mw = w.reject_from(self.dc);
        let qdr = ray.dr.project_onto(self.dc);
        let qw = w.project_onto(self.dc);
        proof {
            lemma_reject_in(ray.dr, self.dc, UMAX as int);
            lemma_reject_in(w, self.dc, 2 * (MAXC as int));
            lemma_scale_in(self.dc, self.height as int, UMAX as int, MAXC as int);
        }
        let hdc = self.dc.scale(self.height);
        proof {
            lemma_mul_abs(self.height as int, self.height as int, MAXC as int, MAXC as int);
            lemma_mul_abs(self.radius as int, self.radius as int, MAXC as int, MAXC as int);
            lemma_tdiv_quotient_abs(
                self.height * self.height,
                SCALE as int,
                (MAXC as int) * (MAXC as int),
            );
            lemma_tdiv_quotient_abs(
                self.radius * self.radius,
                SCALE as int,
                (MAXC as int) * (MAXC as int),
            );
        }
        let h2 = mul_fx(self.height, self.height);
        let r2 = mul_fx(self.radius, self.radius);
        let mdd = mdr.dot(mdr);
        let qdd = qdr.dot(qdr);
        proof {
            lemma_dot_abs(mdr, mdr, 1703936, 1703936);
            lemma_dot_abs(qdr, qdr, 1572864, 1572864);
            lemma_mul_abs(h2 as int, mdd as int, 68719476736, 132907008);
            lemma_mul_abs(r2 as int, qdd as int, 68719476736, 113246208);
            lemma_tdiv_quotient_abs(h2 * mdd, SCALE as int, 9133300044307365888);
            lemma_tdiv_quotient_abs(r2 * qdd, SCALE as int, 7782220156096217088);
        }
        let ta1 = mul_fx(h2, mdd);
        let ta2 = mul_fx(r2, qdd);
        let a: i128 = ta1 - ta2;
        let mdmw = mdr.dot(mw);
        let hv = hdc.sub(qw);
        let qdhv = qdr.dot(hv);
        proof {
            lemma_dot_abs(mdr, mw, 1703936, 1744830464);
            lemma_dot_abs(qdr, hv, 1572864, 1744830464);
            lemma_mul_abs(h2 as int, mdmw as int, 68719476736, 136096776192);
            lemma_mul_abs(r2 as int, qdhv as int, 68719476736, 125627793408);
            lemma_tdiv_quotient_abs(h2 * mdmw, SCALE as int, 9352499245370742669312);
            lemma_tdiv_quotient_abs(r2 * qdhv, SCALE as int, 8633076226496070156288);
        }
        let tb1 = mul_fx(h2, mdmw);
        let tb2 = mul_fx(r2, qdhv);
        let b: i128 = 2 * (tb1 + tb2);
        let mww = mw.dot(mw);
        let qv = qw.sub(hdc);
        let qvv = qv.dot(qv);
        proof {
            lemma_dot_abs(mw, mw, 1744830464, 1744830464);
            lemma_dot_abs(qv, qv, 1744830464, 1744830464);
            lemma_mul_abs(h2 as int, mww as int, 68719476736, 139363098820608);
            lemma_mul_abs(r2 as int, qvv as int, 68719476736, 139363098820608);
            lemma_tdiv_quotient_abs(h2 * mww, SCALE as int, 9576959227259640493375488);
            lemma_tdiv_quotient_abs(r2 * qvv, SCALE as int, 9576959227259640493375488);
        }
        let tc1 = mul_fx(h2, mww);
        let tc2 = mul_fx(r2, qvv);
        let cc: i128 = tc1 - tc2;
        proof {
            lemma_mul_abs(b as int, b as int, 548876204585779200, 548876204585779200);
            lemma_mul_abs(4 * (a as int), cc as int, 1032441418481664, 292265601417835708416);
        }
        let delta: i128 = b * b - 4 * a * cc;
        if a == 0 || delta < 0 {
            return None;
        }
        let sq = isqrt(delta);
        proof {
            lemma_sqrt_le(delta as int, sq as int);
            lemma_mul_abs((-b - sq) as int, SCALE as int, 1701797709192626176, SCALE as int);
            lemma_mul_abs((-b + sq) as int, SCALE as int, 1701797709192626176, SCALE as int);
        }
        let t1 = divi((-b - sq) * SCALE, 2 * a);
        let t2 = divi((-b + sq) * SCALE, 2 * a);
        let o1 = axial_point(self.cb, self.dc, self.height, ray, t1);
        let o2 = axial_point(self.cb, self.dc, self.height, ray, t2);
        let picked: Option<(i128, Vec3)> = match (o1, o2) {
            (Some(p1), Some(p2)) => if t1 <= t2 {
                Some((t1, p1))
            } else {
                Some((t2, p2))
            },
            (Some(p1), None) => Some((t1, p1)),
            (None, Some(p2)) => Some((t2, p2)),
            (None, None) => None,
        };
        match picked {
            Some((t, p)) => {
                let vertex = self.cb.add(hdc);
                let dv = p.sub(vertex);
                let pv = dv.normalized();
                let rej = self.dc.reject_from(pv);
                proof {
                    lemma_reject_in(self.dc, pv, UMAX as int);
                }
                let n = rej.normalized();
                Some(Intersection { t, p, normal: n, material: self.material })
            },
            None => None,
        }
    }

    /// Returns the hit of `ray` with the base disk (normal `-dc`).
    pub fn base_intersects(&self, ray: &Ray) -> (res: Option<Intersection>)
        requires
            wf_cone(*self),
            wf_ray(*ray),
        ensures
            res == disk_hit_s(self.cb, neg_s(self.dc), self.radius as int, self.material, *ray),
            wf_hit(res),
    {
        let n = self.dc.neg();
        disk_hit(self.cb, n, self.radius, self.material, ray)
    }

    /// Returns the nearest usable intersection of `ray` with the whole
    /// cone (lateral surface and enabled base), or `None`.
    pub fn intersects(&self, ray: &Ray) -> (res: Option<Intersection>)
        requires
            wf_cone(*self),
            wf_ray(*ray),
        ensures
            res == cone_hit_s(*self, *ray),
            wf_hit(res),
    {
        let surface = self.surface_intersects(ray);
        let base = if self.has_base {
            self.base_intersects(ray)
        } else {
            None
        };
        min_hit(surface, base)
    }
}

} // verus!
