//! The record a ray query produces: where and how a ray meets a surface.

use vstd::prelude::*;
use crate::fixed::{MAXC, TMAX, UMAX};
use crate::material::{wf_material, Material};
use crate::vec3::{vec_in, Vec3};

verus! {

/// Intersection of a ray with a surface: parameter, point, outward unit
/// normal and the surface's material.  Transient, produced per query.
#[derive(Clone, Copy, Debug, PartialEq, Eq, Structural)]
pub struct Intersection {
    /// Ray parameter of the hit (strictly positive).
    pub t: i128,
    /// Point of the hit.
    pub p: Vec3,
    /// Outward-facing unit normal at the hit.
    pub normal: Vec3,
    /// Material of the surface hit.
    pub material: Material,
}

/// Every intersection the library returns satisfies this: positive
/// bounded parameter, point inside the world cube, unit-sized normal,
/// well-formed material.
pub open spec fn wf_intersection(i: Intersection) -> bool {
    &&& 0 < i.t && i.t <= TMAX
    &&& vec_in(i.p, MAXC as int)
    &&& vec_in(i.normal, UMAX as int)
    &&& wf_material(i.material)
}

/// A hit, when present, is well-formed.
pub open spec fn wf_hit(res: Option<Intersection>) -> bool {
    match res {
        Some(i) => wf_intersection(i),
        None => true,
    }
}

/// The nearer of two optional hits; on an exact tie the first is kept
/// (the tie is geometrically degenerate, with no observable difference).
pub open spec fn min_hit_s(
    x: Option<Intersection>,
    y: Option<Intersection>,
) -> Option<Intersection> {
    match (x, y) {
        (Some(a), Some(b)) => if b.t < a.t {
            Some(b)
        } else {
            Some(a)
        },
        (Some(a), None) => Some(a),
        (None, Some(b)) => Some(b),
        (None, None) => None,
    }
}

/// Executable choice of the nearer hit.
pub fn min_hit(x: Option<Intersection>, y: Option<Intersection>) -> (res: Option<Intersection>)
    ensures
        res == min_hit_s(x, y),
{
    match (x, y) {
        (Some(a), Some(b)) => if b.t < a.t {
            Some(b)
        } else {
            Some(a)
        },
        (Some(a), None) => Some(a),
        (None, Some(b)) => Some(b),
        (None, None) => None,
    }
}

} // verus!
