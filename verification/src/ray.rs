//! Rays: the parametric line `p0 + dr * t` behind every visibility query.

use vstd::prelude::*;
use crate::fixed::{MAXC, TMAX, UMAX};
use crate::vec3::{add_s, lemma_scale_in, scale_s, vec_in, Vec3};

verus! {

/// Ray from an origin point along a direction; callers keep the direction
/// unit length (its components then stay within `UMAX`).
#[derive(Clone, Copy, Debug, PartialEq, Eq, Structural)]
pub struct Ray {
    /// Starting point of the ray.
    pub p0: Vec3,
    /// Direction of the ray.
    pub dr: Vec3,
}

/// The origin lies in the world cube and the direction is unit-sized.
pub open spec fn wf_ray(r: Ray) -> bool {
    &&& vec_in(r.p0, MAXC as int)
    &&& vec_in(r.dr, UMAX as int)
}

/// Point of the ray at parameter `t`.
pub open spec fn at_s(r: Ray, t: int) -> Vec3 {
    add_s(r.p0, scale_s(r.dr, t))
}

/// A parameter is a usable hit when it is strictly positive, not beyond
/// `TMAX`, and its point stays inside the world cube.
pub open spec fn cand_point_s(r: Ray, t: int) -> Option<Vec3> {
    if 0 < t <= TMAX && vec_in(at_s(r, t), MAXC as int) {
        Some(at_s(r, t))
    } else {
        None
    }
}

/// Shorthand: the candidate parameter passes all three hit conditions.
pub open spec fn cand_valid_s(r: Ray, t: int) -> bool {
    cand_point_s(r, t) is Some
}

impl Ray {
    /// Builds a ray from its origin and direction.
    pub fn new(p0: Vec3, dr: Vec3) -> (r: Ray)
        ensures
            r == (Ray { p0, dr }),
    {
        Ray { p0, dr }
    }

    /// Returns the point of the ray at parameter `t`.
    pub fn at(&self, t: i128) -> (p: Vec3)
        requires
            vec_in(self.p0, MAXC as int),
            vec_in(self.dr, UMAX as int),
            -TMAX <= t && t <= TMAX,
        ensures
            p == at_s(*self, t as int),
    {
        proof {
            lemma_scale_in(self.dr, t as int, UMAX as int, TMAX as int);
        }
        let step = self.dr.scale(t);
        self.p0.add(step)
    }

    /// Checks a candidate parameter and returns its point when the
    /// parameter is a usable hit (positive, below `TMAX`, in the world cube).
    pub fn cand_point(&self, t: i128) -> (res: Option<Vec3>)
        requires
            vec_in(self.p0, MAXC as int),
            vec_in(self.dr, UMAX as int),
        ensures
            res == cand_point_s(*self, t as int),
            res matches Some(p) ==> vec_in(p, MAXC as int),
    {
        if t <= 0 || t > TMAX {
            return None;
        }
        let p = self.at(t);
        if p.x < -MAXC || p.x > MAXC || p.y < -MAXC || p.y > MAXC || p.z < -MAXC || p.z > MAXC {
            None
        } else {
            Some(p)
        }
    }
}

} // verus!
