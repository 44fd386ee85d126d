//! Lights: the point light with its shadow test and Phong shading terms.

use vstd::prelude::*;
use crate::fixed::{pow_fx, pow_fx_s, MAXC, SCALE, UMAX};
use crate::intersection::{wf_intersection, Intersection};
use crate::material::{color_in, color_le, lemma_elem_color, lemma_scale_color};
use crate::ray::Ray;
use crate::scene::{in_shadow_s, Scene};
use crate::shape::Shape;
use crate::vec3::{
    add_s, dot_s, lemma_dot_abs, lemma_scale_in, mul_elem_s, neg_s, normalized_s, scale_s, sub_s,
    vec_in, Vec3,
};

verus! {

/// Magnitude cap on one light's shading contribution per channel.
pub const LMAX: i128 = 1125899906842624;

/// Point light: position, colour and a scalar intensity.
#[derive(Clone, Copy, Debug, PartialEq, Eq, Structural)]
pub struct Point {
    /// Position of the light.
    pub pos: Vec3,
    /// Colour of the light.
    pub color: Vec3,
    /// Intensity factor applied to the colour.
    pub intensity: i128,
}

/// Position in the world cube, colour and intensity in range.
pub open spec fn wf_point_light(l: Point) -> bool {
    &&& vec_in(l.pos, MAXC as int)
    &&& color_in(l.color)
    &&& 0 <= l.intensity && l.intensity <= MAXC
}

/// The shadow ray of a surface point toward the light: it starts at the
/// point and runs along the unit direction to the light's position.
pub open spec fn shadow_ray_s(l: Point, inter: Intersection) -> Ray {
    Ray { p0: inter.p, dr: normalized_s(sub_s(l.pos, inter.p)) }
}

/// Shading contribution of the light at an intersection seen from view
/// direction `v`: zero when any shape occludes the shadow ray, else the
/// gated Phong diffuse and specular terms (the strictly-positive gates
/// keep light off back-facing geometry).  The specular base is clamped
/// to one before exponentiation, which a unit reflection never exceeds.
pub open spec fn color_at_s(l: Point, inter: Intersection, v: Vec3, shapes: Seq<Shape>) -> Vec3 {
    if in_shadow_s(shapes, shadow_ray_s(l, inter)) {
        Vec3 { x: 0, y: 0, z: 0 }
    } else {
        let ldir = normalized_s(sub_s(l.pos, inter.p));
        let n = inter.normal;
        let li = scale_s(l.color, l.intensity as int);
        let nl = dot_s(n, ldir);
        let refl = sub_s(scale_s(n, 2 * nl), ldir);
        let rv = dot_s(refl, neg_s(v));
        let dif = if nl > 0 {
            mul_elem_s(scale_s(inter.material.k_dif, nl), li)
        } else {
            Vec3 { x: 0, y: 0, z: 0 }
        };
        let esp = if rv > 0 {
            let base = if rv > SCALE { SCALE as int } else { rv };
            mul_elem_s(
                scale_s(inter.material.k_esp, pow_fx_s(base, inter.material.e as nat)),
                li,
            )
        } else {
            Vec3 { x: 0, y: 0, z: 0 }
        };
        add_s(dif, esp)
    }
}

/// An occluded light contributes nothing: whenever some shape intersects
/// the shadow ray, the shading contribution is the zero vector.
pub proof fn lemma_occluded_is_dark(l: Point, inter: Intersection, v: Vec3, shapes: Seq<Shape>)
    requires
        in_shadow_s(shapes, shadow_ray_s(l, inter)),
    ensures
        color_at_s(l, inter, v, shapes) == (Vec3 { x: 0, y: 0, z: 0 }),
{
}

impl Point {
    /// Builds a point light.
    pub fn new(pos: Vec3, color: Vec3, intensity: i128) -> (l: Point)
        ensures
            l == (Point { pos, color, intensity }),
    {
        Point { pos, color, intensity }
    }

    /// Executable well-formedness check.
    pub fn check_wf(&self) -> (b: bool)
        ensures
            b == wf_point_light(*self),
    {
        crate::shape::check_vec_in(&self.pos, MAXC) && crate::shape::check_color(&self.color)
            && 0 <= self.intensity && self.intensity <= MAXC
    }

    /// Returns the light's shading contribution at `inter`, seen from
    /// view direction `v`, testing the scene for occluders first.
    pub fn color_at(&self, inter: &Intersection, v: Vec3, scene: &Scene) -> (r: Vec3)
        requires
            wf_point_light(*self),
            wf_intersection(*inter),
            vec_in(v, UMAX as int),
            scene.wf(),
        ensures
            r == color_at_s(*self, *inter, v, scene.objects@),
            color_le(r, LMAX as int),
    {
        let ld = self.pos.sub(inter.p);
        let ldir = ld.normalized();
        let sray = Ray { p0: inter.p, dr: ldir };
        if scene.any_intersection(&sray) {
            return Vec3 { x: 0, y: 0, z: 0 };
        }
        let n = inter.normal;
        proof {
            lemma_scale_color(self.color, self.intensity as int, MAXC as int, MAXC as int);
            lemma_dot_abs(n, ldir, UMAX as int, UMAX as int);
        }
        let li = self.color.scale(self.intensity);
        let nl = n.dot(ldir);
        proof {
            lemma_scale_in(n, 2 * (nl as int), UMAX as int, 1572864);
        }
        let scaled_n = n.scale(2 * nl);
        let refl = scaled_n.sub(ldir);
        let nv = v.neg();
        let rv = refl.dot(nv);
        proof {
            lemma_dot_abs(refl, nv, 3211264, UMAX as int);
        }
        let dif: Vec3 = if nl > 0 {
            proof {
                lemma_scale_color(inter.material.k_dif, nl as int, MAXC as int, 786432);
                lemma_elem_color(
                    scale_s(inter.material.k_dif, nl as int),
                    scale_s(self.color, self.intensity as int),
                    805306368,
                    68719476736,
                );
            }
            let kd = inter.material.k_dif.scale(nl);
            kd.mul_elem(li)
        } else {
            Vec3 { x: 0, y: 0, z: 0 }
        };
        let esp: Vec3 = if rv > 0 {
            let base: i128 = if rv > SCALE {
                SCALE
            } else {
                rv
            };
            let pw = pow_fx(base, inter.material.e);
            proof {
                lemma_scale_color(inter.material.k_esp, pw as int, MAXC as int, SCALE as int);
                lemma_elem_color(
                    scale_s(inter.material.k_esp, pw as int),
                    scale_s(self.color, self.intensity as int),
                    MAXC as int,
                    68719476736,
                );
            }
            let ke = inter.material.k_esp.scale(pw);
            ke.mul_elem(li)
        } else {
            Vec3 { x: 0, y: 0, z: 0 }
        };
        dif.add(esp)
    }
}

/// A light source of the scene: the closed set of light kinds.
#[derive(Clone, Copy, Debug, PartialEq, Eq, Structural)]
pub enum Light {
    /// A point light with shadow testing.
    Point(Point),
}

/// The contained light is well-formed.
pub open spec fn wf_light(l: Light) -> bool {
    match l {
        Light::Point(p) => wf_point_light(p),
    }
}

/// Shading contribution of a light, by case.
pub open spec fn light_color_s(l: Light, inter: Intersection, v: Vec3, shapes: Seq<Shape>) -> Vec3 {
    match l {
        Light::Point(p) => color_at_s(p, inter, v, shapes),
    }
}

impl Light {
    /// Executable well-formedness check.
    pub fn check_wf(&self) -> (b: bool)
        ensures
            b == wf_light(*self),
    {
        match self {
            Light::Point(p) => p.check_wf(),
        }
    }

    /// Returns the light's shading contribution at `inter`, by case.
    pub fn color_at(&self, inter: &Intersection, v: Vec3, scene: &Scene) -> (r: Vec3)
        requires
            wf_light(*self),
            wf_intersection(*inter),
            vec_in(v, UMAX as int),
            scene.wf(),
        ensures
            r == light_color_s(*self, *inter, v, scene.objects@),
            color_le(r, LMAX as int),
    {
        match self {
            Light::Point(p) => p.color_at(inter, v, scene),
        }
    }
}

} // verus!
