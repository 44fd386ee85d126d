//! The camera: eye position, orthonormal basis and viewport geometry,
//! driving per-pixel ray generation, shading composition and the
//! row-major RGB pixel buffer.

use vstd::prelude::*;
use vstd::arithmetic::div_mod::{lemma_fundamental_div_mod_converse, lemma_multiply_divide_lt};
use crate::fixed::{
    byte_s, channel_byte, divi, lemma_byte_s_range, lemma_mul_abs, lemma_tdiv_abs,
    tdiv, MAXC, SCALE, UMAX, VMAX,
};
use crate::intersection::{wf_intersection, Intersection};
use crate::light::{light_color_s, Light, LMAX};
use crate::material::{color_le, lemma_elem_color};
use crate::ray::{Ray};
use crate::scene::{nearest_of, Scene};
use crate::shape::Shape;
use crate::transforms::{
    mat_in, rotate_basis_s, rotation_matrix_from_axis_angle, Mat3,
};
use crate::vec3::{
    add_s, lemma_muli_in, lemma_scale_in, mul_elem_s, muli_s, normalized_s, scale_s,
    sub_s, vec_in, Vec3,
};

verus! {

/// Camera with its observer at `p0`, an orthonormal basis, and the
/// rendering frame's size and distance.
pub struct Camera {
    /// Position of the observer (the eye).
    pub p0: Vec3,
    /// Width of the viewport frame.
    pub frame_width: i128,
    /// Height of the viewport frame.
    pub frame_height: i128,
    /// Distance from the eye to the frame.
    pub frame_distance: i128,
    /// Orthonormal orientation basis.
    pub coord_system: Mat3,
}

/// Eye in the world cube, sizes in range, unit-sized basis axes.
pub open spec fn wf_camera(c: Camera) -> bool {
    &&& vec_in(c.p0, MAXC as int)
    &&& 0 <= c.frame_width && c.frame_width <= MAXC
    &&& 0 <= c.frame_height && c.frame_height <= MAXC
    &&& 0 <= c.frame_distance && c.frame_distance <= MAXC
    &&& mat_in(c.coord_system, UMAX as int)
}

/// Centre of the frame: `p0 - frame_distance * z_axis`.
pub open spec fn frame_center_s(c: Camera) -> Vec3 {
    sub_s(c.p0, scale_s(c.coord_system.z_axis, c.frame_distance as int))
}

/// Top-left corner of the frame.
pub open spec fn frame_00_s(c: Camera) -> Vec3 {
    add_s(
        sub_s(frame_center_s(c), scale_s(c.coord_system.x_axis, tdiv(c.frame_width as int, 2))),
        scale_s(c.coord_system.y_axis, tdiv(c.frame_height as int, 2)),
    )
}

/// Horizontal pixel step: `(frame_width / res_x) * x_axis`.
pub open spec fn dx_s(c: Camera, rx: int) -> Vec3 {
    scale_s(c.coord_system.x_axis, tdiv(c.frame_width as int, rx))
}

/// Vertical pixel step: `-(frame_height / res_y) * y_axis`.
pub open spec fn dy_s(c: Camera, ry: int) -> Vec3 {
    scale_s(c.coord_system.y_axis, -tdiv(c.frame_height as int, ry))
}

/// Centre of the first pixel of the grid.
pub open spec fn p00_s(c: Camera, rx: int, ry: int) -> Vec3 {
    add_s(add_s(frame_00_s(c), scale_s(dx_s(c, rx), 32768)), scale_s(dy_s(c, ry), 32768))
}

/// World-space sample point of the pixel `(px, py)`.
pub open spec fn sample_s(c: Camera, rx: int, ry: int, px: int, py: int) -> Vec3 {
    add_s(add_s(p00_s(c, rx, ry), muli_s(dx_s(c, rx), px)), muli_s(dy_s(c, ry), py))
}

/// The primary ray of the pixel `(px, py)`: from the eye through the
/// pixel's sample point, with a unit direction.
pub open spec fn pixel_ray_s(c: Camera, rx: int, ry: int, px: int, py: int) -> Ray {
    Ray { p0: c.p0, dr: normalized_s(sub_s(sample_s(c, rx, ry, px, py), c.p0)) }
}

/// Sum of the shading contributions of all lights, accumulated in order.
pub open spec fn lights_sum_s(
    lights: Seq<Light>,
    inter: Intersection,
    v: Vec3,
    shapes: Seq<Shape>,
) -> Vec3
    decreases lights.len(),
{
    if lights.len() == 0 {
        Vec3 { x: 0, y: 0, z: 0 }
    } else {
        add_s(
            lights_sum_s(lights.drop_last(), inter, v, shapes),
            light_color_s(lights.last(), inter, v, shapes),
        )
    }
}

/// Colour of the pixel `(px, py)` as an RGB byte triple: black when the
/// primary ray hits nothing, else the clamped composition of the
/// ambient term and every light's contribution.
pub open spec fn pixel_s(c: Camera, scene: Scene, rx: int, ry: int, px: int, py: int) -> (
    u8,
    u8,
    u8,
) {
    let ray = pixel_ray_s(c, rx, ry, px, py);
    match nearest_of(scene.objects@, ray) {
        None => (0u8, 0u8, 0u8),
        Some(inter) => {
            let passive = mul_elem_s(scene.ambient_light, inter.material.k_amb);
            let active = lights_sum_s(scene.lights@, inter, ray.dr, scene.objects@);
            let total = add_s(passive, active);
            (
                byte_s(total.x as int) as u8,
                byte_s(total.y as int) as u8,
                byte_s(total.z as int) as u8,
            )
        },
    }
}

/// One byte of the pixel buffer: byte `k` belongs to pixel `k / 3`
/// (row-major, top row first) and channel `k % 3` (R, G, B).
pub open spec fn image_byte_s(c: Camera, scene: Scene, rx: int, ry: int, k: int) -> u8 {
    let pix = k / 3;
    let px = pix % rx;
    let py = pix / rx;
    let rgb = pixel_s(c, scene, rx, ry, px, py);
    if k % 3 == 0 {
        rgb.0
    } else if k % 3 == 1 {
        rgb.1
    } else {
        rgb.2
    }
}

/// The whole pixel buffer: `3 * rx * ry` bytes, row-major RGB.
pub open spec fn image_s(c: Camera, scene: Scene, rx: int, ry: int) -> Seq<u8> {
    Seq::new((3 * rx * ry) as nat, |k: int| image_byte_s(c, scene, rx, ry, k))
}

/// A pixel whose primary ray meets no shape is written as the black
/// background triple, whatever the scene's lights and ambient term.
pub proof fn lemma_miss_is_black(c: Camera, scene: Scene, rx: int, ry: int, px: int, py: int)
    requires
        nearest_of(scene.objects@, pixel_ray_s(c, rx, ry, px, py)) is None,
    ensures
        pixel_s(c, scene, rx, ry, px, py) == (0u8, 0u8, 0u8),
{
}

/// The same, at the level of the buffer: the three bytes of such a
/// pixel are zero.
pub proof fn lemma_background_bytes(c: Camera, scene: Scene, rx: int, ry: int, px: int, py: int)
    requires
        0 < rx,
        0 < ry,
        0 <= px < rx,
        0 <= py < ry,
        nearest_of(scene.objects@, pixel_ray_s(c, rx, ry, px, py)) is None,
    ensures
        image_s(c, scene, rx, ry)[3 * (py * rx + px)] == 0,
        image_s(c, scene, rx, ry)[3 * (py * rx + px) + 1] == 0,
        image_s(c, scene, rx, ry)[3 * (py * rx + px) + 2] == 0,
{
    let pix = py * rx + px;
    assert(0 <= py * rx + px && 3 * (py * rx + px) + 2 < 3 * rx * ry) by (nonlinear_arith)
        requires
            0 < rx,
            0 < ry,
            0 <= px < rx,
            0 <= py < ry,
    ;
    assert(3 * pix + 2 < 3 * rx * ry);
    lemma_fundamental_div_mod_converse(3 * pix, 3, pix, 0);
    lemma_fundamental_div_mod_converse(3 * pix + 1, 3, pix, 1);
    lemma_fundamental_div_mod_converse(3 * pix + 2, 3, pix, 2);
    lemma_fundamental_div_mod_converse(pix, rx, py, px);
}

/// Rendering is a pure function of the scene and the camera: two
/// buffers produced from the same unmodified inputs are byte-identical.
pub proof fn lemma_render_idempotent(
    b1: Seq<u8>,
    b2: Seq<u8>,
    c: Camera,
    scene: Scene,
    rx: int,
    ry: int,
)
    requires
        b1 == image_s(c, scene, rx, ry),
        b2 == image_s(c, scene, rx, ry),
    ensures
        b1 == b2,
{
}

impl Camera {
    /// Builds a camera at `p0` looking down the negative third axis,
    /// with the identity basis.
    pub fn new(p0: Vec3, frame_width: i128, frame_height: i128, frame_distance: i128) -> (c:
        Camera)
        requires
            vec_in(p0, MAXC as int),
            0 <= frame_width && frame_width <= MAXC,
            0 <= frame_height && frame_height <= MAXC,
            0 <= frame_distance && frame_distance <= MAXC,
        ensures
            c == (Camera {
                p0,
                frame_width,
                frame_height,
                frame_distance,
                coord_system: Mat3 {
                    x_axis: Vec3 { x: SCALE, y: 0, z: 0 },
                    y_axis: Vec3 { x: 0, y: SCALE, z: 0 },
                    z_axis: Vec3 { x: 0, y: 0, z: SCALE },
                },
            }),
            wf_camera(c),
    {
        Camera {
            p0,
            frame_width,
            frame_height,
            frame_distance,
            coord_system: Mat3::identity(),
        }
    }

    /// Executable well-formedness check, for callers that build cameras
    /// from unchecked values.
    pub fn check_wf(&self) -> (b: bool)
        ensures
            b == wf_camera(*self),
    {
        crate::shape::check_vec_in(&self.p0, MAXC) && 0 <= self.frame_width && self.frame_width
            <= MAXC && 0 <= self.frame_height && self.frame_height <= MAXC && 0
            <= self.frame_distance && self.frame_distance <= MAXC && crate::shape::check_vec_in(
            &self.coord_system.x_axis,
            UMAX,
        ) && crate::shape::check_vec_in(&self.coord_system.y_axis, UMAX)
            && crate::shape::check_vec_in(&self.coord_system.z_axis, UMAX)
    }

    /// Rotates all three basis axes about `axis` by the angle whose
    /// fixed-point cosine and sine are `cos_t` and `sin_t`.
    pub fn rotate(&mut self, axis: Vec3, cos_t: i128, sin_t: i128)
        requires
            wf_camera(*old(self)),
            vec_in(axis, VMAX as int),
            -SCALE <= cos_t && cos_t <= SCALE,
            -SCALE <= sin_t && sin_t <= SCALE,
        ensures
            final(self).p0 == old(self).p0,
            final(self).frame_width == old(self).frame_width,
            final(self).frame_height == old(self).frame_height,
            final(self).frame_distance == old(self).frame_distance,
            final(self).coord_system == rotate_basis_s(
                old(self).coord_system,
                axis,
                cos_t as int,
                sin_t as int,
            ),
            wf_camera(*final(self)),
    {
        let rm = rotation_matrix_from_axis_angle(axis, cos_t, sin_t);
        let nx = rm.mul_vec(self.coord_system.x_axis).clamp(-UMAX, UMAX);
        let ny = rm.mul_vec(self.coord_system.y_axis).clamp(-UMAX, UMAX);
        let nz = rm.mul_vec(self.coord_system.z_axis).clamp(-UMAX, UMAX);
        self.coord_system = Mat3 { x_axis: nx, y_axis: ny, z_axis: nz };
    }

    /// Centre of the frame.
    fn frame_center(&self) -> (r: Vec3)
        requires
            wf_camera(*self),
        ensures
            r == frame_center_s(*self),
            vec_in(r, 3 * (MAXC as int)),
    {
        proof {
            lemma_scale_in(
                self.coord_system.z_axis,
                self.frame_distance as int,
                UMAX as int,
                MAXC as int,
            );
        }
        let zt = self.coord_system.z_axis.scale(self.frame_distance);
        self.p0.sub(zt)
    }

    /// Top-left corner of the frame.
    fn frame_00(&self) -> (r: Vec3)
        requires
            wf_camera(*self),
        ensures
            r == frame_00_s(*self),
            vec_in(r, 7 * (MAXC as int)),
    {
        let fc = self.frame_center();
        let fw2 = divi(self.frame_width, 2);
        let fh2 = divi(self.frame_height, 2);
        proof {
            lemma_tdiv_abs(self.frame_width as int, 2, MAXC as int);
            lemma_tdiv_abs(self.frame_height as int, 2, MAXC as int);
            lemma_scale_in(self.coord_system.x_axis, tdiv(self.frame_width as int, 2),
                UMAX as int, MAXC as int);
            lemma_scale_in(self.coord_system.y_axis, tdiv(self.frame_height as int, 2),
                UMAX as int, MAXC as int);
        }
        let xt = self.coord_system.x_axis.scale(fw2);
        let yt = self.coord_system.y_axis.scale(fh2);
        fc.sub(xt).add(yt)
    }

    /// Composes the colour at a hit: the ambient term plus every
    /// light's contribution, before the byte conversion.
    fn shade_total(scene: &Scene, inter: &Intersection, dir: Vec3) -> (total: Vec3)
        requires
            scene.wf(),
            wf_intersection(*inter),
            vec_in(dir, SCALE as int),
        ensures
            total == add_s(
                mul_elem_s(scene.ambient_light, inter.material.k_amb),
                lights_sum_s(scene.lights@, *inter, dir, scene.objects@),
            ),
            color_le(total, 41538374868278621028243970633760768),
    {
        proof {
            lemma_elem_color(scene.ambient_light, inter.material.k_amb, MAXC as int, MAXC as int);
        }
        let passive = scene.ambient_light.mul_elem(inter.material.k_amb);
        let mut active = Vec3::new(0, 0, 0);
        let mut li: usize = 0;
        while li < scene.lights.len()
            invariant
                scene.wf(),
                wf_intersection(*inter),
                vec_in(dir, SCALE as int),
                li <= scene.lights@.len(),
                active == lights_sum_s(scene.lights@.take(li as int), *inter, dir, scene.objects@),
                color_le(active, (li as int) * (LMAX as int)),
            decreases scene.lights@.len() - li,
        {
            let lc = scene.lights[li].color_at(inter, dir, scene);
            proof {
                assert(scene.lights@.take(li + 1).drop_last() =~= scene.lights@.take(li as int));
                assert(scene.lights@.take(li + 1).last() == scene.lights@[li as int]);
                lemma_mul_abs(li as int, LMAX as int, 18446744073709551616, LMAX as int);
                assert((li + 1) * (LMAX as int) == (li as int) * (LMAX as int) + (LMAX as int))
                    by (nonlinear_arith);
            }
            active = active.add(lc);
            li = li + 1;
        }
        proof {
            assert(scene.lights@.take(scene.lights@.len() as int) =~= scene.lights@);
            lemma_mul_abs(scene.lights@.len() as int, LMAX as int, 18446744073709551616,
                LMAX as int);
        }
        passive.add(active)
    }

    /// Renders the single pixel `(px, py)` of an `x_res` by `y_res`
    /// frame, returning its RGB byte triple.
    pub fn render_pixel(&self, scene: &Scene, x_res: i32, y_res: i32, px: i32, py: i32) -> (rgb:
        (u8, u8, u8))
        requires
            wf_camera(*self),
            scene.wf(),
            0 < x_res && x_res <= 4096,
            0 < y_res && y_res <= 4096,
            0 <= px && px < x_res,
            0 <= py && py < y_res,
        ensures
            rgb == pixel_s(*self, *scene, x_res as int, y_res as int, px as int, py as int),
    {
        let f00 = self.frame_00();
        let dxk = divi(self.frame_width, x_res as i128);
        let dyk = divi(self.frame_height, y_res as i128);
        proof {
            lemma_tdiv_abs(self.frame_width as int, x_res as int, MAXC as int);
            lemma_tdiv_abs(self.frame_height as int, y_res as int, MAXC as int);
            lemma_scale_in(self.coord_system.x_axis, tdiv(self.frame_width as int, x_res as int),
                UMAX as int, MAXC as int);
            lemma_scale_in(self.coord_system.y_axis, -tdiv(self.frame_height as int,
                y_res as int), UMAX as int, MAXC as int);
        }
        let dx = self.coord_system.x_axis.scale(dxk);
        let dy = self.coord_system.y_axis.scale(-dyk);
        proof {
            lemma_scale_in(dx_s(*self, x_res as int), 32768, 2 * (MAXC as int), 32768);
            lemma_scale_in(dy_s(*self, y_res as int), 32768, 2 * (MAXC as int), 32768);
        }
        let dxh = dx.scale(32768);
        let dyh = dy.scale(32768);
        let p00 = f00.add(dxh).add(dyh);
        proof {
            lemma_muli_in(dx_s(*self, x_res as int), px as int, 2 * (MAXC as int), 4096);
            lemma_muli_in(dy_s(*self, y_res as int), py as int, 2 * (MAXC as int), 4096);
        }
        let pxv = dx.muli(px as i128);
        let pyv = dy.muli(py as i128);
        let sample = p00.add(pxv).add(pyv);
        let d0 = sample.sub(self.p0);
        let dir = d0.normalized();
        let ray = Ray::new(self.p0, dir);
        let hit = scene.nearest_intersection(&ray);
        match hit {
            None => (0u8, 0u8, 0u8),
            Some(inter) => {
                let total = Camera::shade_total(scene, &inter, dir);
                let r = channel_byte(total.x);
                let g = channel_byte(total.y);
                let b = channel_byte(total.z);
                proof {
                    lemma_byte_s_range(total.x as int);
                    lemma_byte_s_range(total.y as int);
                    lemma_byte_s_range(total.z as int);
                }
                (r, g, b)
            },
        }
    }

    /// Renders the scene into `canvas`, which must hold exactly
    /// `3 * x_res * y_res` bytes (the row-major RGB layout); callers
    /// with a buffer of any other size must not call this.
    pub fn render_scene_to(&self, scene: &Scene, canvas: &mut Vec<u8>, x_res: i32, y_res: i32)
        requires
            wf_camera(*self),
            scene.wf(),
            0 < x_res && x_res <= 4096,
            0 < y_res && y_res <= 4096,
            old(canvas)@.len() == 3 * x_res * y_res,
        ensures
            final(canvas)@ == image_s(*self, *scene, x_res as int, y_res as int),
    {
        canvas.clear();
        let rxu: usize = x_res as usize;
        let ryu: usize = y_res as usize;
        proof {
            lemma_mul_abs(rxu as int, ryu as int, 4096, 4096);
        }
        let n: usize = rxu * ryu;
        let mut pix: usize = 0;
        while pix < n
            invariant
                wf_camera(*self),
                scene.wf(),
                0 < x_res && x_res <= 4096,
                0 < y_res && y_res <= 4096,
                rxu == x_res as usize,
                ryu == y_res as usize,
                n == rxu * ryu,
                pix <= n,
                canvas@.len() == 3 * pix,
                forall|k: int|
                    0 <= k < 3 * pix ==> canvas@[k] == image_byte_s(
                        *self,
                        *scene,
                        x_res as int,
                        y_res as int,
                        k,
                    ),
            decreases n - pix,
        {
            let px: i32 = (pix % rxu) as i32;
            let py: i32 = (pix / rxu) as i32;
            proof {
                lemma_multiply_divide_lt(pix as int, rxu as int, ryu as int);
            }
            let (r, g, b) = self.render_pixel(scene, x_res, y_res, px, py);
            proof {
                lemma_fundamental_div_mod_converse(3 * (pix as int), 3, pix as int, 0);
                lemma_fundamental_div_mod_converse(3 * (pix as int) + 1, 3, pix as int, 1);
                lemma_fundamental_div_mod_converse(3 * (pix as int) + 2, 3, pix as int, 2);
            }
            canvas.push(r);
            canvas.push(g);
            canvas.push(b);
            pix = pix + 1;
        }
        proof {
            assert(3 * (rxu as int) * (ryu as int) == 3 * ((rxu as int) * (ryu as int)))
                by (nonlinear_arith);
            assert(canvas@ =~= image_s(*self, *scene, x_res as int, y_res as int));
        }
    }

    /// Renders the scene at the given resolution into a fresh buffer:
    /// 3 bytes per pixel (R, G, B), row-major, top row first.
    pub fn render_scene(&self, scene: &Scene, x_res: i32, y_res: i32) -> (img: Vec<u8>)
        requires
            wf_camera(*self),
            scene.wf(),
            0 < x_res && x_res <= 4096,
            0 < y_res && y_res <= 4096,
        ensures
            img@ == image_s(*self, *scene, x_res as int, y_res as int),
            img@.len() == 3 * x_res * y_res,
    {
        let rxu: usize = x_res as usize;
        let ryu: usize = y_res as usize;
        proof {
            lemma_mul_abs(3 * (rxu as int), ryu as int, 12288, 4096);
            assert(0 <= 3 * (x_res as int) * (y_res as int) && 3 * (x_res as int) * (
            y_res as int) == 3 * (rxu as int) * (ryu as int)) by (nonlinear_arith)
                requires
                    0 < x_res as int <= 4096,
                    0 < y_res as int <= 4096,
                    rxu as int == x_res as int,
                    ryu as int == y_res as int,
            ;
        }
        let n3: usize = 3 * rxu * ryu;
        let mut img: Vec<u8> = Vec::new();
        let mut i: usize = 0;
        while i < n3
            invariant
                i <= n3,
                img@.len() == i,
            decreases n3 - i,
        {
            img.push(0);
            i = i + 1;
        }
        self.render_scene_to(scene, &mut img, x_res, y_res);
        img
    }
}

} // verus!
