//! The animatable sphere primitive.

use vstd::prelude::*;

use crate::animation::{channel_wf, opt_channel_wf, spec_axis_value, AnimationChannel};
use crate::color::Color;
use crate::fixed::{fx_wf, Fx};
use crate::material::{mat_wf, Material};
use crate::ray::Ray;
use crate::renderable::{hit_wf, HitRecord};
use crate::vector3::{v3_wf, Vector3};

verus! {

/// The animatable scalar slots of a sphere: the three center axes and the
/// radius.
#[derive(Clone, Copy, Debug, PartialEq, Eq, Structural)]
pub enum ChannelTarget {
    CenterX,
    CenterY,
    CenterZ,
    Radius,
}

/// A sphere with a base center and radius, either of which may be driven by
/// an animation channel, and the material its surface scatters with.
#[derive(Clone, Debug)]
pub struct Sphere {
    pub center: Vector3,
    pub radius: Fx,
    pub material: Material,
    pub ch_center_x: Option<AnimationChannel>,
    pub ch_center_y: Option<AnimationChannel>,
    pub ch_center_z: Option<AnimationChannel>,
    pub ch_radius: Option<AnimationChannel>,
}

pub open spec fn sphere_wf(s: Sphere) -> bool {
    &&& v3_wf(s.center)
    &&& fx_wf(s.radius)
    &&& mat_wf(s.material)
    &&& opt_channel_wf(s.ch_center_x)
    &&& opt_channel_wf(s.ch_center_y)
    &&& opt_channel_wf(s.ch_center_z)
    &&& opt_channel_wf(s.ch_radius)
}

impl Sphere {
    pub fn new(center: Vector3, radius: Fx, material: Material) -> (r: Sphere)
        ensures
            r.center == center,
            r.radius == radius,
            r.material == material,
            r.ch_center_x is None,
            r.ch_center_y is None,
            r.ch_center_z is None,
            r.ch_radius is None,
    {
        Sphere {
            center,
            radius,
            material,
            ch_center_x: None,
            ch_center_y: None,
            ch_center_z: None,
            ch_radius: None,
        }
    }

    /// Attach `ch` to the slot `target`, replacing any channel already there.
    pub fn add_animation_channel(&mut self, target: ChannelTarget, ch: AnimationChannel)
        requires
            channel_wf(ch),
        ensures
            final(self).center == old(self).center,
            final(self).radius == old(self).radius,
            final(self).material == old(self).material,
            final(self).ch_center_x == if target is CenterX {
                Some(ch)
            } else {
                old(self).ch_center_x
            },
            final(self).ch_center_y == if target is CenterY {
                Some(ch)
            } else {
                old(self).ch_center_y
            },
            final(self).ch_center_z == if target is CenterZ {
                Some(ch)
            } else {
                old(self).ch_center_z
            },
            final(self).ch_radius == if target is Radius {
                Some(ch)
            } else {
                old(self).ch_radius
            },
    {
        match target {
            ChannelTarget::CenterX => self.ch_center_x = Some(ch),
            ChannelTarget::CenterY => self.ch_center_y = Some(ch),
            ChannelTarget::CenterZ => self.ch_center_z = Some(ch),
            ChannelTarget::Radius => self.ch_radius = Some(ch),
        }
    }

    /// The surface normal of the point `p` against the sphere's base center
    /// and radius: `(p - center)/radius`.
    pub open spec fn spec_normal(self, p: Vector3) -> Vector3 {
        Vector3::spec_scale(
            Vector3::spec_diff(p, self.center),
            Fx { raw: 65536 }.spec_div(self.radius),
        )
    }

    pub fn normal(&self, p: &Vector3) -> (r: Vector3)
        requires
            sphere_wf(*self),
            v3_wf(*p),
        ensures
            r == self.spec_normal(*p),
            v3_wf(r),
    {
        let d = Vector3::diff(p, &self.center);
        Vector3::scale(&d, Fx { raw: 65536 }.div(self.radius))
    }

    /// The center for frame `f`: each axis evaluates its channel against the
    /// matching component of the base center.
    pub open spec fn spec_center_at(self, f: Fx) -> Vector3 {
        Vector3 {
            x: spec_axis_value(self.ch_center_x, f, self.center.x),
            y: spec_axis_value(self.ch_center_y, f, self.center.y),
            z: spec_axis_value(self.ch_center_z, f, self.center.z),
        }
    }

    pub fn get_center_by_frame(&self, f: Fx) -> (r: Vector3)
        requires
            sphere_wf(*self),
            fx_wf(f),
        ensures
            r == self.spec_center_at(f),
            v3_wf(r),
    {
        AnimationChannel::get_vector_by_frame(
            self.ch_center_x.as_ref(),
            self.ch_center_y.as_ref(),
            self.ch_center_z.as_ref(),
            &self.center,
            f,
        )
    }

    /// The radius for frame `f`: the radius channel evaluated against the
    /// base radius.
    pub open spec fn spec_radius_at(self, f: Fx) -> Fx {
        spec_axis_value(self.ch_radius, f, self.radius)
    }

    pub fn get_radius_by_frame(&self, f: Fx) -> (r: Fx)
        requires
            sphere_wf(*self),
            fx_wf(f),
        ensures
            r == self.spec_radius_at(f),
            fx_wf(r),
    {
        match &self.ch_radius {
            Some(ch) => ch.get_value_at_frame(f, self.radius),
            None => self.radius,
        }
    }

    /// What tracing the sphere returns: solve `|O + tD - C|² = r²` in the
    /// half-b form against the frame's resolved center and radius; a negative
    /// discriminant misses, otherwise the smaller root is tried first and the
    /// larger as a fallback, each against `[t_min, t_max]`. The hit carries
    /// the resolved-surface normal, flipped (with `front_face` cleared) when
    /// the ray leaves the sphere's inside. Opaque: callers relate hits by
    /// congruence, not by the quadratic.
    #[verifier::opaque]
    pub open spec fn spec_trace(self, ray: Ray, t_min: Fx, t_max: Fx, f: Fx) -> Option<
        HitRecord,
    > {
        let v_sc = self.spec_center_at(f);
        let sr = self.spec_radius_at(f);
        let v_oc = Vector3::spec_diff(ray.origin, v_sc);
        let a = Vector3::spec_dot(ray.direction, ray.direction);
        let half_b = Vector3::spec_dot(v_oc, ray.direction);
        let c = Vector3::spec_dot(v_oc, v_oc).spec_sub(sr.spec_mul(sr));
        let dis = half_b.spec_mul(half_b).spec_sub(a.spec_mul(c));
        if dis.raw < 0 {
            None
        } else {
            let disqrt = dis.spec_sqrt();
            let t1 = half_b.spec_neg().spec_sub(disqrt).spec_div(a);
            let t2 = half_b.spec_neg().spec_add(disqrt).spec_div(a);
            let t = if t1.raw < t_min.raw || t1.raw > t_max.raw {
                t2
            } else {
                t1
            };
            if t.raw < t_min.raw || t.raw > t_max.raw {
                None
            } else {
                let point = ray.spec_at(t);
                let n0 = Vector3::spec_scale(
                    Vector3::spec_diff(point, v_sc),
                    Fx { raw: 65536 }.spec_div(sr),
                );
                if Vector3::spec_dot(ray.direction, n0).raw >= 0 {
                    Some(
                        HitRecord {
                            p: point,
                            n: Vector3::spec_scale(n0, Fx { raw: (-65536) as i64 }),
                            t,
                            front_face: false,
                            material: self.material,
                        },
                    )
                } else {
                    Some(
                        HitRecord {
                            p: point,
                            n: n0,
                            t,
                            front_face: true,
                            material: self.material,
                        },
                    )
                }
            }
        }
    }

    pub fn trace(&self, ray: &Ray, t_min: Fx, t_max: Fx, f: Fx) -> (r: Option<HitRecord>)
        requires
            sphere_wf(*self),
            crate::ray::ray_wf(*ray),
            fx_wf(t_min),
            fx_wf(t_max),
            fx_wf(f),
        ensures
            r == self.spec_trace(*ray, t_min, t_max, f),
            r is Some ==> hit_wf(r->Some_0),
            r is Some ==> t_min.raw <= r->Some_0.t.raw <= t_max.raw,
    {
        proof {
            reveal(Sphere::spec_trace);
        }
        let v_sc = self.get_center_by_frame(f);
        let sr = self.get_radius_by_frame(f);
        let v_oc = Vector3::diff(ray.get_origin(), &v_sc);
        let a = Vector3::dot(ray.get_direction(), ray.get_direction());
        let half_b = Vector3::dot(&v_oc, ray.get_direction());
        let c = Vector3::dot(&v_oc, &v_oc).sub(sr.mul(sr));
        let dis = half_b.mul(half_b).sub(a.mul(c));
        if dis.raw < 0 {
            return None;
        }
        let disqrt = dis.sqrt();
        let mut t = half_b.neg().sub(disqrt).div(a);
        if t.raw < t_min.raw || t.raw > t_max.raw {
            t = half_b.neg().add(disqrt).div(a);
            if t.raw < t_min.raw || t.raw > t_max.raw {
                return None;
            }
        }
        let point = ray.at(t);
        let d = Vector3::diff(&point, &v_sc);
        let n0 = Vector3::scale(&d, Fx { raw: 65536 }.div(sr));
        if Vector3::dot(ray.get_direction(), &n0).raw >= 0 {
            Some(
                HitRecord {
                    p: point,
                    n: Vector3::scale(&n0, Fx { raw: (-65536) as i64 }),
                    t,
                    front_face: false,
                    material: self.material.copy(),
                },
            )
        } else {
            Some(HitRecord { p: point, n: n0, t, front_face: true, material: self.material.copy() })
        }
    }

    /// The discriminant of the intersection quadratic in half-b form.
    pub open spec fn spec_discriminant(self, ray: Ray, f: Fx) -> Fx {
        let v_oc = Vector3::spec_diff(ray.origin, self.spec_center_at(f));
        let a = Vector3::spec_dot(ray.direction, ray.direction);
        let half_b = Vector3::spec_dot(v_oc, ray.direction);
        let sr = self.spec_radius_at(f);
        let c = Vector3::spec_dot(v_oc, v_oc).spec_sub(sr.spec_mul(sr));
        half_b.spec_mul(half_b).spec_sub(a.spec_mul(c))
    }

    /// The smaller intersection root `(-half_b - sqrt(dis))/a`.
    pub open spec fn spec_root1(self, ray: Ray, f: Fx) -> Fx {
        let v_oc = Vector3::spec_diff(ray.origin, self.spec_center_at(f));
        let a = Vector3::spec_dot(ray.direction, ray.direction);
        let half_b = Vector3::spec_dot(v_oc, ray.direction);
        half_b.spec_neg().spec_sub(self.spec_discriminant(ray, f).spec_sqrt()).spec_div(a)
    }

    /// The larger intersection root `(-half_b + sqrt(dis))/a`.
    pub open spec fn spec_root2(self, ray: Ray, f: Fx) -> Fx {
        let v_oc = Vector3::spec_diff(ray.origin, self.spec_center_at(f));
        let a = Vector3::spec_dot(ray.direction, ray.direction);
        let half_b = Vector3::spec_dot(v_oc, ray.direction);
        half_b.spec_neg().spec_add(self.spec_discriminant(ray, f).spec_sqrt()).spec_div(a)
    }

    /// The normal-visualization color of a hit: each normal component mapped
    /// from `[-1, 1]` to `[0, 1]`.
    pub open spec fn spec_get_color(self, hit: HitRecord) -> Color {
        let half = Fx { raw: 32768 };
        Color {
            r: hit.n.x.spec_mul(half).spec_add(half),
            g: hit.n.y.spec_mul(half).spec_add(half),
            b: hit.n.z.spec_mul(half).spec_add(half),
        }
    }

    pub fn get_color(&self, hit_record: &HitRecord) -> (c: Color)
        requires
            sphere_wf(*self),
            hit_wf(*hit_record),
        ensures
            c == self.spec_get_color(*hit_record),
            crate::color::color_wf(c),
    {
        let half = Fx { raw: 32768 };
        let n = hit_record.n();
        Color {
            r: n.x.mul(half).add(half),
            g: n.y.mul(half).add(half),
            b: n.z.mul(half).add(half),
        }
    }
}

/// When a ray's direction has positive self-dot, the two intersection roots
/// are ordered, and tracing reports the smaller in-range root: the smaller
/// root when it lies in `[t_min, t_max]`, else the larger when it does, and
/// no hit when neither does or the discriminant is negative. The premise
/// excludes directions below the grid's resolution, whose squared length
/// rounds to zero and whose root divisions would saturate.
pub proof fn lemma_reports_smaller_root(s: Sphere, ray: Ray, t_min: Fx, t_max: Fx, f: Fx)
    requires
        Vector3::spec_dot(ray.direction, ray.direction).raw > 0,
    ensures
        s.spec_root1(ray, f).raw <= s.spec_root2(ray, f).raw,
        ({
            let dis = s.spec_discriminant(ray, f);
            let t1 = s.spec_root1(ray, f);
            let t2 = s.spec_root2(ray, f);
            let r = s.spec_trace(ray, t_min, t_max, f);
            &&& dis.raw < 0 ==> r is None
            &&& dis.raw >= 0 && t_min.raw <= t1.raw <= t_max.raw ==> r is Some
                && r->Some_0.t == t1
            &&& dis.raw >= 0 && !(t_min.raw <= t1.raw <= t_max.raw) && t_min.raw <= t2.raw
                <= t_max.raw ==> r is Some && r->Some_0.t == t2
            &&& dis.raw >= 0 && !(t_min.raw <= t1.raw <= t_max.raw) && !(t_min.raw <= t2.raw
                <= t_max.raw) ==> r is None
        }),
{
    reveal(Sphere::spec_trace);
    let a = Vector3::spec_dot(ray.direction, ray.direction);
    let v_oc = Vector3::spec_diff(ray.origin, s.spec_center_at(f));
    let half_b = Vector3::spec_dot(v_oc, ray.direction);
    let dis = s.spec_discriminant(ray, f);
    let sq = dis.spec_sqrt();
    if dis.raw > 0 {
        let x = dis.raw * (crate::fixed::FX_SCALE as int);
        crate::fixed::lemma_sqrt_floor(x);
        assert(dis.raw <= crate::fixed::FX_MAX_RAW);
        assert(crate::fixed::sqrt_floor(x) <= 0x8000_0000) by (nonlinear_arith)
            requires
                crate::fixed::sqrt_floor(x) * crate::fixed::sqrt_floor(x) <= x,
                x <= 0x4000_0000_0000_0000,
                crate::fixed::sqrt_floor(x) >= 0;
    }
    assert(sq.raw >= 0);
    let num1 = half_b.spec_neg().spec_sub(sq);
    let num2 = half_b.spec_neg().spec_add(sq);
    assert(num1.raw <= num2.raw);
    crate::fixed::lemma_div_monotone_num(num1, num2, a);
}

} // verus!
