//! The closed set of surfaces the renderer knows, with intersection
//! dispatch over the cases.

use vstd::prelude::*;
use crate::cilinder::{cyl_hit_s, wf_cilinder, Cilinder};
use crate::cone::{cone_hit_s, wf_cone, Cone};
use crate::fixed::{MAXC, UMAX};
use crate::intersection::{wf_hit, Intersection};
use crate::material::{color_in, wf_material, Material};
use crate::plane::{plane_hit_s, wf_plane, Plane};
use crate::ray::{wf_ray, Ray};
use crate::sphere::{sphere_hit_s, wf_sphere, Sphere};
use crate::vec3::{vec_in, Vec3};

verus! {

/// A surface of the scene: one of the four analytic primitives.
#[derive(Clone, Copy, Debug, PartialEq, Eq, Structural)]
pub enum Shape {
    /// A sphere.
    Sphere(Sphere),
    /// An unbounded plane.
    Plane(Plane),
    /// A finite cylinder with optional caps.
    Cilinder(Cilinder),
    /// A finite cone with an optional base.
    Cone(Cone),
}

/// The contained primitive is well-formed.
pub open spec fn wf_shape(s: Shape) -> bool {
    match s {
        Shape::Sphere(x) => wf_sphere(x),
        Shape::Plane(x) => wf_plane(x),
        Shape::Cilinder(x) => wf_cilinder(x),
        Shape::Cone(x) => wf_cone(x),
    }
}

/// Nearest usable hit of the ray with the shape, by case.
pub open spec fn shape_hit_s(s: Shape, ray: Ray) -> Option<Intersection> {
    match s {
        Shape::Sphere(x) => sphere_hit_s(x, ray),
        Shape::Plane(x) => plane_hit_s(x, ray),
        Shape::Cilinder(x) => cyl_hit_s(x, ray),
        Shape::Cone(x) => cone_hit_s(x, ray),
    }
}

/// Executable check that a colour triple lies in `[0, MAXC]`.
pub fn check_color(v: &Vec3) -> (b: bool)
    ensures
        b == color_in(*v),
{
    0 <= v.x && v.x <= MAXC && 0 <= v.y && v.y <= MAXC && 0 <= v.z && v.z <= MAXC
}

/// Executable check that a vector's components stay within `bound`.
pub fn check_vec_in(v: &Vec3, bound: i128) -> (b: bool)
    requires
        0 <= bound,
    ensures
        b == vec_in(*v, bound as int),
{
    -bound <= v.x && v.x <= bound && -bound <= v.y && v.y <= bound && -bound <= v.z && v.z
        <= bound
}

/// Executable check that a material is well-formed.
pub fn check_material(m: &Material) -> (b: bool)
    ensures
        b == wf_material(*m),
{
    check_color(&m.k_amb) && check_color(&m.k_dif) && check_color(&m.k_esp)
}

impl Shape {
    /// Returns the nearest usable intersection of `ray` with the shape,
    /// or `None` when the ray misses it.
    pub fn intersects(&self, ray: &Ray) -> (res: Option<Intersection>)
        requires
            wf_shape(*self),
            wf_ray(*ray),
        ensures
            res == shape_hit_s(*self, *ray),
            wf_hit(res),
    {
        match self {
            Shape::Sphere(x) => x.intersects(ray),
            Shape::Plane(x) => x.intersects(ray),
            Shape::Cilinder(x) => x.intersects(ray),
            Shape::Cone(x) => x.intersects(ray),
        }
    }

    /// Executable well-formedness check, for callers that build shapes
    /// from unchecked values.
    pub fn check_wf(&self) -> (b: bool)
        ensures
            b == wf_shape(*self),
    {
        match self {
            Shape::Sphere(x) => check_vec_in(&x.pos, MAXC) && 0 <= x.radius && x.radius <= MAXC
                && check_material(&x.material),
            Shape::Plane(x) => check_vec_in(&x.pc, MAXC) && check_vec_in(&x.normal, UMAX)
                && check_material(&x.material),
            Shape::Cilinder(x) => check_vec_in(&x.cb, MAXC) && check_vec_in(&x.dc, UMAX) && 0
                <= x.height && x.height <= MAXC && 0 <= x.radius && x.radius <= MAXC
                && check_material(&x.material),
            Shape::Cone(x) => check_vec_in(&x.cb, MAXC) && check_vec_in(&x.dc, UMAX) && 0
                <= x.height && x.height <= MAXC && 0 <= x.radius && x.radius <= MAXC
                && check_material(&x.material),
        }
    }
}

} // verus!
