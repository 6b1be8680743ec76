//! The camera: viewport derivation from the vertical field of view, a
//! rotation into world space, and jittered per-sample ray generation with a
//! thin-lens depth-of-field model.

use vstd::prelude::*;

use crate::fixed::{fx_wf, Fx};
use crate::matrix3::{m3_wf, Matrix3};
use crate::ray::Ray;
use crate::sampler::Sampler;
use crate::trig::{spec_deg_to_rad, spec_tan};
use crate::vector3::{v3_wf, Vector3};

verus! {

#[derive(Clone, Copy, Debug, PartialEq, Eq, Structural)]
pub struct Camera {
    pub aspect_ratio: Fx,
    pub vfov: Fx,
    pub width: Fx,
    pub height: Fx,
    pub location: Vector3,
    pub rotation: Vector3,
    pub rotation_matrix: Matrix3,
    pub focus_dist: Fx,
    pub aperture_size: Fx,
}

pub open spec fn cam_wf(c: Camera) -> bool {
    &&& fx_wf(c.aspect_ratio) && fx_wf(c.vfov) && fx_wf(c.width) && fx_wf(c.height)
    &&& v3_wf(c.location) && v3_wf(c.rotation) && m3_wf(c.rotation_matrix)
    &&& fx_wf(c.focus_dist) && fx_wf(c.aperture_size)
}

/// Builds a camera by chained settings, fixing the viewport on `build`.
pub struct CameraBuilder {
    pub camera: Camera,
}

impl CameraBuilder {
    pub fn set_aspect_ratio(self, ar: Fx) -> (r: CameraBuilder)
        ensures
            r.camera == (Camera { aspect_ratio: ar, ..self.camera }),
    {
        let mut b = self;
        b.camera.aspect_ratio = ar;
        b
    }

    pub fn set_vertical_field_of_view(self, fov: Fx) -> (r: CameraBuilder)
        ensures
            r.camera == (Camera { vfov: fov, ..self.camera }),
    {
        let mut b = self;
        b.camera.vfov = fov;
        b
    }

    pub fn build(self) -> (r: Camera)
        requires
            cam_wf(self.camera),
        ensures
            r == self.camera.spec_with_viewport(),
            cam_wf(r),
    {
        let mut c = self.camera;
        c.update_viewport_dim();
        c
    }
}

impl Camera {
    /// A builder over the default camera: a 16:9 pinhole at the origin with a
    /// 60-degree vertical field of view.
    pub fn new() -> (r: CameraBuilder)
        ensures
            r.camera == Camera::spec_default(),
            cam_wf(r.camera),
    {
        CameraBuilder {
            camera: Camera {
                aspect_ratio: Fx::from_int(16).div(Fx::from_int(9)),
                vfov: Fx::from_int(60),
                width: Fx { raw: 65536 },
                height: Fx { raw: 65536 },
                location: Vector3::zero(),
                rotation: Vector3::zero(),
                rotation_matrix: Matrix3::identity(),
                focus_dist: Fx { raw: 65536 },
                aperture_size: Fx { raw: 0 },
            },
        }
    }

    pub open spec fn spec_default() -> Camera {
        Camera {
            aspect_ratio: Fx::spec_from_int(16).spec_div(Fx::spec_from_int(9)),
            vfov: Fx::spec_from_int(60),
            width: Fx { raw: 65536 },
            height: Fx { raw: 65536 },
            location: Vector3::spec_zero(),
            rotation: Vector3::spec_zero(),
            rotation_matrix: Matrix3::spec_identity(),
            focus_dist: Fx { raw: 65536 },
            aperture_size: Fx { raw: 0 },
        }
    }

    pub fn set_location(&mut self, v: Vector3)
        ensures
            *final(self) == (Camera { location: v, ..*old(self) }),
    {
        self.location = v;
    }

    /// Set the Euler rotation (degrees) and rebuild the rotation matrix.
    pub fn set_rotation(&mut self, r: Vector3)
        requires
            v3_wf(r),
        ensures
            *final(self) == (Camera {
                rotation: r,
                rotation_matrix: Matrix3::spec_rotation_matrix(r.x, r.y, r.z),
                ..*old(self)
            }),
            m3_wf(final(self).rotation_matrix),
    {
        self.rotation = r;
        self.update_rotation_matrix();
    }

    pub fn set_focus_distance(&mut self, fd: Fx)
        ensures
            *final(self) == (Camera { focus_dist: fd, ..*old(self) }),
    {
        self.focus_dist = fd;
    }

    pub fn set_aperture_size(&mut self, ap_s: Fx)
        ensures
            *final(self) == (Camera { aperture_size: ap_s, ..*old(self) }),
    {
        self.aperture_size = ap_s;
    }

    /// The camera with its viewport rebuilt from the field of view:
    /// height `2·tan(vfov/2)`, width `aspect_ratio · height`.
    pub open spec fn spec_with_viewport(self) -> Camera {
        let theta = spec_deg_to_rad(self.vfov);
        let height = spec_tan(theta.spec_div(Fx { raw: 131072 })).spec_mul(Fx { raw: 131072 });
        let width = self.aspect_ratio.spec_mul(height);
        Camera { width, height, ..self }
    }

    pub fn set_vertical_field_of_view(&mut self, vfov: Fx)
        requires
            cam_wf(*old(self)),
            fx_wf(vfov),
        ensures
            *final(self) == (Camera { vfov, ..*old(self) }).spec_with_viewport(),
            cam_wf(*final(self)),
    {
        self.vfov = vfov;
        self.update_viewport_dim();
    }

    pub fn update_viewport_dim(&mut self)
        requires
            cam_wf(*old(self)),
        ensures
            *final(self) == old(self).spec_with_viewport(),
            cam_wf(*final(self)),
    {
        let theta = crate::trig::deg_to_rad(self.vfov);
        let height = crate::trig::fx_tan(theta.div(Fx { raw: 131072 })).mul(Fx { raw: 131072 });
        let width = self.aspect_ratio.mul(height);
        self.height = height;
        self.width = width;
    }

    pub fn update_rotation_matrix(&mut self)
        requires
            v3_wf(old(self).rotation),
        ensures
            *final(self) == (Camera {
                rotation_matrix: Matrix3::spec_rotation_matrix(
                    old(self).rotation.x,
                    old(self).rotation.y,
                    old(self).rotation.z,
                ),
                ..*old(self)
            }),
            m3_wf(final(self).rotation_matrix),
    {
        self.rotation_matrix = Matrix3::rotation_matrix(
            self.rotation.x,
            self.rotation.y,
            self.rotation.z,
        );
    }

    /// The ray `get_ray` builds from the five draws a sampler yields: the
    /// two sub-pixel jitters, then the three lens offsets. Opaque: callers
    /// relate rays by congruence, not by the formula.
    #[verifier::opaque]
    pub open spec fn spec_get_ray(self, i: u64, j: u64, pw: u64, ph: u64, s: Sampler) -> (
        Ray,
        Sampler,
    ) {
        let rand1 = s.spec_unit();
        let s1 = s.spec_step();
        let rand2 = s1.spec_unit();
        let s2 = s1.spec_step();
        let v = Fx::spec_from_int(pw as int);
        let c = Fx::spec_from_int(ph as int);
        let fi = Fx::spec_from_int(i as int);
        let fj = Fx::spec_from_int(j as int);
        let two = Fx { raw: 131072 };
        let x = self.width.spec_mul(
            v.spec_neg().spec_add(rand1).spec_add(two.spec_mul(fi)),
        ).spec_div(two.spec_mul(v));
        let y = self.height.spec_mul(
            c.spec_sub(rand2).spec_sub(two.spec_mul(fj)),
        ).spec_div(two.spec_mul(c));
        let dir = Vector3 { x, y, z: Fx { raw: (-65536) as i64 } };
        let rotated = Vector3::spec_normalize(Matrix3::spec_mul_vector(self.rotation_matrix, dir));
        let focal_point = Vector3::spec_sum(
            self.location,
            Vector3::spec_scale(rotated, self.focus_dist),
        );
        let half = Fx { raw: 32768 };
        let r3 = s2.spec_unit();
        let s3 = s2.spec_step();
        let r4 = s3.spec_unit();
        let s4 = s3.spec_step();
        let r5 = s4.spec_unit();
        let s5 = s4.spec_step();
        let ox = r3.spec_sub(half).spec_mul(self.aperture_size).spec_add(self.location.x);
        let oy = r4.spec_sub(half).spec_mul(self.aperture_size).spec_add(self.location.y);
        let oz = r5.spec_sub(half).spec_mul(self.aperture_size).spec_add(self.location.z);
        let or = Vector3 { x: ox, y: oy, z: oz };
        let new_dir = Vector3::spec_normalize(Vector3::spec_diff(focal_point, or));
        (Ray { origin: or, direction: new_dir }, s5)
    }

    /// Generate the jittered ray for sample of pixel `(i, j)` of a
    /// `pw`×`ph` image, drawing the jitter and lens offsets from `s`.
    pub fn get_ray(&self, i: u64, j: u64, pixel_width: u64, pixel_height: u64, s: &mut Sampler)
        -> (r: Ray)
        requires
            cam_wf(*self),
            i <= 0x4000_0000u64,
            j <= 0x4000_0000u64,
            pixel_width <= 0x4000_0000u64,
            pixel_height <= 0x4000_0000u64,
        ensures
            r == self.spec_get_ray(i, j, pixel_width, pixel_height, *old(s)).0,
            *final(s) == self.spec_get_ray(i, j, pixel_width, pixel_height, *old(s)).1,
            crate::ray::ray_wf(r),
    {
        proof {
            reveal(Camera::spec_get_ray);
        }
        let rand1 = s.next_unit();
        let rand2 = s.next_unit();
        let v = Fx::from_int(pixel_width as i64);
        let c = Fx::from_int(pixel_height as i64);
        let fi = Fx::from_int(i as i64);
        let fj = Fx::from_int(j as i64);
        let two = Fx { raw: 131072 };
        let x = self.width.mul(v.neg().add(rand1).add(two.mul(fi))).div(two.mul(v));
        let y = self.height.mul(c.sub(rand2).sub(two.mul(fj))).div(two.mul(c));
        let dir = Vector3 { x, y, z: Fx { raw: (-65536) as i64 } };
        let rotated0 = self.rotation_matrix.mul_vector(&dir);
        let rotated = rotated0.normalize();
        let scaled = Vector3::scale(&rotated, self.focus_dist);
        let focal_point = Vector3::sum(&self.location, &scaled);
        let half = Fx { raw: 32768 };
        let r3 = s.next_unit();
        let r4 = s.next_unit();
        let r5 = s.next_unit();
        let ox = r3.sub(half).mul(self.aperture_size).add(self.location.x);
        let oy = r4.sub(half).mul(self.aperture_size).add(self.location.y);
        let oz = r5.sub(half).mul(self.aperture_size).add(self.location.z);
        let or = Vector3 { x: ox, y: oy, z: oz };
        let to_focus = Vector3::diff(&focal_point, &or);
        let new_dir = to_focus.normalize();
        Ray::new(or, new_dir)
    }
}

} // verus!
