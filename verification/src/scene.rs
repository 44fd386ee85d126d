//! The scene: its shapes, its lights and the ambient light, with the
//! nearest-intersection query every ray uses.

use vstd::prelude::*;
use crate::intersection::{min_hit, min_hit_s, wf_hit, Intersection};
use crate::light::{wf_light, Light};
use crate::material::color_in;
use crate::ray::{wf_ray, Ray};
use crate::shape::{shape_hit_s, wf_shape, Shape};
use crate::vec3::Vec3;

verus! {

/// Scene contents; immutable for the duration of a render call.
pub struct Scene {
    /// Shapes of the scene, in insertion order.
    pub objects: Vec<Shape>,
    /// Lights of the scene, in insertion order.
    pub lights: Vec<Light>,
    /// Ambient light colour.
    pub ambient_light: Vec3,
}

/// Every shape of the sequence is well-formed.
pub open spec fn wf_shapes(shapes: Seq<Shape>) -> bool {
    forall|i: int| 0 <= i < shapes.len() ==> wf_shape(#[trigger] shapes[i])
}

/// Every light of the sequence is well-formed.
pub open spec fn wf_lights(lights: Seq<Light>) -> bool {
    forall|i: int| 0 <= i < lights.len() ==> wf_light(#[trigger] lights[i])
}

/// Nearest hit of the ray over a sequence of shapes; on an exact
/// parameter tie the earlier shape wins.
pub open spec fn nearest_of(shapes: Seq<Shape>, ray: Ray) -> Option<Intersection>
    decreases shapes.len(),
{
    if shapes.len() == 0 {
        None
    } else {
        min_hit_s(nearest_of(shapes.drop_last(), ray), shape_hit_s(shapes.last(), ray))
    }
}

/// Some shape of the sequence intersects the ray (the shadow test).
pub open spec fn in_shadow_s(shapes: Seq<Shape>, ray: Ray) -> bool
    decreases shapes.len(),
{
    if shapes.len() == 0 {
        false
    } else {
        in_shadow_s(shapes.drop_last(), ray) || shape_hit_s(shapes.last(), ray) is Some
    }
}

/// One hitting shape is enough for the shadow test to report a hit.
pub proof fn lemma_in_shadow_some(shapes: Seq<Shape>, ray: Ray, i: int)
    requires
        0 <= i < shapes.len(),
        shape_hit_s(shapes[i], ray) is Some,
    ensures
        in_shadow_s(shapes, ray),
    decreases shapes.len(),
{
    if i < shapes.len() - 1 {
        lemma_in_shadow_some(shapes.drop_last(), ray, i);
    }
}

impl Scene {
    /// All contents are well-formed.
    pub open spec fn wf(&self) -> bool {
        &&& wf_shapes(self.objects@)
        &&& wf_lights(self.lights@)
        &&& color_in(self.ambient_light)
    }

    /// Executable well-formedness check, for callers that build scenes
    /// from unchecked values.
    pub fn check_wf(&self) -> (b: bool)
        ensures
            b == self.wf(),
    {
        let mut i: usize = 0;
        while i < self.objects.len()
            invariant
                i <= self.objects@.len(),
                forall|j: int| 0 <= j < i ==> wf_shape(#[trigger] self.objects@[j]),
            decreases self.objects@.len() - i,
        {
            if !self.objects[i].check_wf() {
                return false;
            }
            i = i + 1;
        }
        let mut k: usize = 0;
        while k < self.lights.len()
            invariant
                k <= self.lights@.len(),
                forall|j: int| 0 <= j < k ==> wf_light(#[trigger] self.lights@[j]),
            decreases self.lights@.len() - k,
        {
            if !self.lights[k].check_wf() {
                return false;
            }
            k = k + 1;
        }
        crate::shape::check_color(&self.ambient_light)
    }

    /// Linear scan over all shapes, keeping the minimum-parameter hit;
    /// used both for primary visibility and for every shadow ray.
    pub fn nearest_intersection(&self, ray: &Ray) -> (res: Option<Intersection>)
        requires
            self.wf(),
            wf_ray(*ray),
        ensures
            res == nearest_of(self.objects@, *ray),
            wf_hit(res),
    {
        let mut best: Option<Intersection> = None;
        let mut i: usize = 0;
        while i < self.objects.len()
            invariant
                self.wf(),
                wf_ray(*ray),
                i <= self.objects@.len(),
                best == nearest_of(self.objects@.take(i as int), *ray),
                wf_hit(best),
            decreases self.objects@.len() - i,
        {
            let hit = self.objects[i].intersects(ray);
            proof {
                assert(self.objects@.take(i + 1).drop_last() =~= self.objects@.take(i as int));
                assert(self.objects@.take(i + 1).last() == self.objects@[i as int]);
            }
            best = min_hit(best, hit);
            i = i + 1;
        }
        proof {
            assert(self.objects@.take(self.objects@.len() as int) =~= self.objects@);
        }
        best
    }

    /// Existence check: does any shape intersect the ray at all?
    pub fn any_intersection(&self, ray: &Ray) -> (b: bool)
        requires
            self.wf(),
            wf_ray(*ray),
        ensures
            b == in_shadow_s(self.objects@, *ray),
    {
        let mut i: usize = 0;
        while i < self.objects.len()
            invariant
                self.wf(),
                wf_ray(*ray),
                i <= self.objects@.len(),
                !in_shadow_s(self.objects@.take(i as int), *ray),
            decreases self.objects@.len() - i,
        {
            let hit = self.objects[i].intersects(ray);
            proof {
                assert(self.objects@.take(i + 1).drop_last() =~= self.objects@.take(i as int));
                assert(self.objects@.take(i + 1).last() == self.objects@[i as int]);
            }
            if hit.is_some() {
                proof {
                    lemma_in_shadow_some(self.objects@, *ray, i as int);
                }
                return true;
            }
            i = i + 1;
        }
        proof {
            assert(self.objects@.take(self.objects@.len() as int) =~= self.objects@);
        }
        false
    }
}

} // verus!
