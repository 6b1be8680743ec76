//! Three-component vector algebra over fixed-point scalars.

use vstd::prelude::*;

use crate::fixed::{fx_wf, Fx};
use crate::sampler::Sampler;

verus! {

/// Raw magnitude below which a component counts as zero: one quantum, the
/// tightest tolerance the fixed-point grid can express.
pub const NEAR_ZERO_RAW: i64 = 1;

#[derive(Clone, Copy, Debug, PartialEq, Eq, Structural)]
pub struct Vector3 {
    pub x: Fx,
    pub y: Fx,
    pub z: Fx,
}

pub open spec fn v3_wf(v: Vector3) -> bool {
    fx_wf(v.x) && fx_wf(v.y) && fx_wf(v.z)
}

impl Vector3 {
    pub fn new(x: Fx, y: Fx, z: Fx) -> (r: Vector3)
        ensures
            r == (Vector3 { x, y, z }),
    {
        Vector3 { x, y, z }
    }

    pub open spec fn spec_zero() -> Vector3 {
        Vector3 { x: Fx { raw: 0 }, y: Fx { raw: 0 }, z: Fx { raw: 0 } }
    }

    pub fn zero() -> (r: Vector3)
        ensures
            r == Vector3::spec_zero(),
            v3_wf(r),
    {
        Vector3 { x: Fx { raw: 0 }, y: Fx { raw: 0 }, z: Fx { raw: 0 } }
    }

    /// `x·y`, summed left to right.
    pub open spec fn spec_dot(a: Vector3, b: Vector3) -> Fx {
        a.x.spec_mul(b.x).spec_add(a.y.spec_mul(b.y)).spec_add(a.z.spec_mul(b.z))
    }

    pub fn dot(a: &Vector3, b: &Vector3) -> (r: Fx)
        requires
            v3_wf(*a),
            v3_wf(*b),
        ensures
            r == Vector3::spec_dot(*a, *b),
            fx_wf(r),
    {
        a.x.mul(b.x).add(a.y.mul(b.y)).add(a.z.mul(b.z))
    }

    pub open spec fn spec_cross(a: Vector3, b: Vector3) -> Vector3 {
        Vector3 {
            x: a.y.spec_mul(b.z).spec_sub(a.z.spec_mul(b.y)),
            y: a.z.spec_mul(b.x).spec_sub(a.x.spec_mul(b.z)),
            z: a.x.spec_mul(b.y).spec_sub(a.y.spec_mul(b.x)),
        }
    }

    pub fn cross(v1: &Vector3, v2: &Vector3) -> (r: Vector3)
        requires
            v3_wf(*v1),
            v3_wf(*v2),
        ensures
            r == Vector3::spec_cross(*v1, *v2),
            v3_wf(r),
    {
        Vector3 {
            x: v1.y.mul(v2.z).sub(v1.z.mul(v2.y)),
            y: v1.z.mul(v2.x).sub(v1.x.mul(v2.z)),
            z: v1.x.mul(v2.y).sub(v1.y.mul(v2.x)),
        }
    }

    pub open spec fn spec_sum(a: Vector3, b: Vector3) -> Vector3 {
        Vector3 {
            x: a.x.spec_add(b.x),
            y: a.y.spec_add(b.y),
            z: a.z.spec_add(b.z),
        }
    }

    pub fn sum(v1: &Vector3, v2: &Vector3) -> (r: Vector3)
        requires
            v3_wf(*v1),
            v3_wf(*v2),
        ensures
            r == Vector3::spec_sum(*v1, *v2),
            v3_wf(r),
    {
        Vector3 { x: v1.x.add(v2.x), y: v1.y.add(v2.y), z: v1.z.add(v2.z) }
    }

    pub open spec fn spec_diff(a: Vector3, b: Vector3) -> Vector3 {
        Vector3 {
            x: a.x.spec_sub(b.x),
            y: a.y.spec_sub(b.y),
            z: a.z.spec_sub(b.z),
        }
    }

    pub fn diff(v1: &Vector3, v2: &Vector3) -> (r: Vector3)
        requires
            v3_wf(*v1),
            v3_wf(*v2),
        ensures
            r == Vector3::spec_diff(*v1, *v2),
            v3_wf(r),
    {
        Vector3 { x: v1.x.sub(v2.x), y: v1.y.sub(v2.y), z: v1.z.sub(v2.z) }
    }

    pub open spec fn spec_scale(v: Vector3, s: Fx) -> Vector3 {
        Vector3 {
            x: v.x.spec_mul(s),
            y: v.y.spec_mul(s),
            z: v.z.spec_mul(s),
        }
    }

    pub fn scale(v: &Vector3, s: Fx) -> (r: Vector3)
        requires
            v3_wf(*v),
            fx_wf(s),
        ensures
            r == Vector3::spec_scale(*v, s),
            v3_wf(r),
    {
        Vector3 { x: v.x.mul(s), y: v.y.mul(s), z: v.z.mul(s) }
    }

    pub open spec fn spec_length(v: Vector3) -> Fx {
        Vector3::spec_dot(v, v).spec_sqrt()
    }

    pub fn length(&self) -> (r: Fx)
        requires
            v3_wf(*self),
        ensures
            r == Vector3::spec_length(*self),
            fx_wf(r),
            r.raw >= 0,
    {
        Vector3::dot(self, self).sqrt()
    }

    pub open spec fn spec_distance(a: Vector3, b: Vector3) -> Fx {
        Vector3::spec_length(Vector3::spec_diff(a, b))
    }

    pub fn distance(v1: &Vector3, v2: &Vector3) -> (r: Fx)
        requires
            v3_wf(*v1),
            v3_wf(*v2),
        ensures
            r == Vector3::spec_distance(*v1, *v2),
            fx_wf(r),
            r.raw >= 0,
    {
        let d = Vector3::diff(v1, v2);
        d.length()
    }

    /// Each component divided by the vector's length. A zero-length vector
    /// divides by zero, which saturates componentwise (the fixed-point
    /// analogue of the non-finite values a floating-point core would produce).
    pub open spec fn spec_normalize(v: Vector3) -> Vector3 {
        let len = Vector3::spec_length(v);
        Vector3 {
            x: v.x.spec_div(len),
            y: v.y.spec_div(len),
            z: v.z.spec_div(len),
        }
    }

    pub fn normalize(&self) -> (r: Vector3)
        requires
            v3_wf(*self),
        ensures
            r == Vector3::spec_normalize(*self),
            v3_wf(r),
    {
        let len = self.length();
        Vector3 { x: self.x.div(len), y: self.y.div(len), z: self.z.div(len) }
    }

    /// Mirror `d` about `n`: `d - 2(d·n)n`.
    pub open spec fn spec_reflection(d: Vector3, n: Vector3) -> Vector3 {
        let dn = Vector3::spec_dot(d, n);
        Vector3::spec_diff(d, Vector3::spec_scale(n, Fx { raw: 131072 }.spec_mul(dn)))
    }

    pub fn reflection(d: &Vector3, n: &Vector3) -> (r: Vector3)
        requires
            v3_wf(*d),
            v3_wf(*n),
        ensures
            r == Vector3::spec_reflection(*d, *n),
            v3_wf(r),
    {
        let dn = Vector3::dot(d, n);
        let s = Vector3::scale(n, Fx { raw: 131072 }.mul(dn));
        Vector3::diff(d, &s)
    }

    /// Orthogonal projection of `a` onto `b`.
    pub open spec fn spec_orth_proj(b: Vector3, a: Vector3) -> Vector3 {
        let s = Vector3::spec_dot(a, b).spec_div(Vector3::spec_dot(b, b));
        Vector3::spec_scale(b, s)
    }

    pub fn orth_proj(b: &Vector3, a: &Vector3) -> (r: Vector3)
        requires
            v3_wf(*b),
            v3_wf(*a),
        ensures
            r == Vector3::spec_orth_proj(*b, *a),
            v3_wf(r),
    {
        let top = Vector3::dot(a, b);
        let btm = Vector3::dot(b, b);
        let s = top.div(btm);
        Vector3::scale(b, s)
    }

    pub open spec fn spec_neg(v: Vector3) -> Vector3 {
        Vector3 { x: v.x.spec_neg(), y: v.y.spec_neg(), z: v.z.spec_neg() }
    }

    pub fn neg(&self) -> (r: Vector3)
        requires
            v3_wf(*self),
        ensures
            r == Vector3::spec_neg(*self),
            v3_wf(r),
    {
        Vector3 { x: self.x.neg(), y: self.y.neg(), z: self.z.neg() }
    }

    /// Refract the unit direction `uv` at a surface with unit normal `n` and
    /// refraction ratio `eta`: the perpendicular part is `eta·(uv + cosθ·n)`,
    /// the parallel part `-sqrt(|1 - |perp|²|)·n`.
    pub open spec fn spec_refraction(uv: Vector3, n: Vector3, eta: Fx) -> Vector3 {
        let cos_theta = Vector3::spec_dot(Vector3::spec_neg(uv), n).spec_min(Fx { raw: 65536 });
        let perp = Vector3::spec_scale(Vector3::spec_sum(uv, Vector3::spec_scale(n, cos_theta)), eta);
        let par_sq = Fx { raw: 65536 }.spec_sub(Vector3::spec_dot(perp, perp)).spec_abs();
        let parallel = Vector3::spec_scale(n, par_sq.spec_sqrt().spec_neg());
        Vector3::spec_sum(perp, parallel)
    }

    pub fn refraction(uv: &Vector3, n: &Vector3, eta: Fx) -> (r: Vector3)
        requires
            v3_wf(*uv),
            v3_wf(*n),
            fx_wf(eta),
        ensures
            r == Vector3::spec_refraction(*uv, *n, eta),
            v3_wf(r),
    {
        let neg_uv = uv.neg();
        let cos_theta = Vector3::dot(&neg_uv, n).min(Fx { raw: 65536 });
        let scaled_n = Vector3::scale(n, cos_theta);
        let inner = Vector3::sum(uv, &scaled_n);
        let perp = Vector3::scale(&inner, eta);
        let par_sq = Fx { raw: 65536 }.sub(Vector3::dot(&perp, &perp)).abs();
        let parallel = Vector3::scale(n, par_sq.sqrt().neg());
        Vector3::sum(&perp, &parallel)
    }

    /// Every component within one quantum of zero.
    pub open spec fn spec_near_zero(v: Vector3) -> bool {
        -NEAR_ZERO_RAW <= v.x.raw <= NEAR_ZERO_RAW
            && -NEAR_ZERO_RAW <= v.y.raw <= NEAR_ZERO_RAW
            && -NEAR_ZERO_RAW <= v.z.raw <= NEAR_ZERO_RAW
    }

    pub fn near_zero(&self) -> (r: bool)
        ensures
            r == Vector3::spec_near_zero(*self),
    {
        -NEAR_ZERO_RAW <= self.x.raw && self.x.raw <= NEAR_ZERO_RAW
            && -NEAR_ZERO_RAW <= self.y.raw && self.y.raw <= NEAR_ZERO_RAW
            && -NEAR_ZERO_RAW <= self.z.raw && self.z.raw <= NEAR_ZERO_RAW
    }

    pub fn copy(&self) -> (r: Vector3)
        ensures
            r == *self,
    {
        Vector3 { x: self.x, y: self.y, z: self.z }
    }

    /// The candidate direction three consecutive draws of `s` yield.
    pub open spec fn spec_sphere_candidate(s: Sampler) -> Vector3 {
        Vector3 {
            x: s.spec_symmetric(),
            y: s.spec_step().spec_symmetric(),
            z: s.spec_step().spec_step().spec_symmetric(),
        }
    }

    /// A candidate is kept when it lies inside the unit ball but not so close
    /// to the origin that normalizing it would lose all precision.
    pub open spec fn spec_candidate_ok(v: Vector3) -> bool {
        1024 <= Vector3::spec_dot(v, v).raw <= 65536
    }

    /// The sampler state after drawing one candidate.
    pub open spec fn spec_step3(s: Sampler) -> Sampler {
        s.spec_step().spec_step().spec_step()
    }

    /// The direction `random_in_unit_sphere` returns together with the
    /// sampler state it leaves behind: up to three rejection-sampling
    /// attempts, then a fixed unit axis. Opaque: callers relate draws by
    /// congruence, not by the formula.
    #[verifier::opaque]
    pub open spec fn spec_random_in_unit_sphere(s: Sampler) -> (Vector3, Sampler) {
        let c1 = Vector3::spec_sphere_candidate(s);
        let s1 = Vector3::spec_step3(s);
        if Vector3::spec_candidate_ok(c1) {
            (Vector3::spec_normalize(c1), s1)
        } else {
            let c2 = Vector3::spec_sphere_candidate(s1);
            let s2 = Vector3::spec_step3(s1);
            if Vector3::spec_candidate_ok(c2) {
                (Vector3::spec_normalize(c2), s2)
            } else {
                let c3 = Vector3::spec_sphere_candidate(s2);
                let s3 = Vector3::spec_step3(s2);
                if Vector3::spec_candidate_ok(c3) {
                    (Vector3::spec_normalize(c3), s3)
                } else {
                    (Vector3 { x: Fx { raw: 65536 }, y: Fx { raw: 0 }, z: Fx { raw: 0 } }, s3)
                }
            }
        }
    }

    fn sphere_candidate(s: &mut Sampler) -> (v: Vector3)
        ensures
            v == Vector3::spec_sphere_candidate(*old(s)),
            *final(s) == Vector3::spec_step3(*old(s)),
            v3_wf(v),
    {
        let x = s.next_symmetric();
        let y = s.next_symmetric();
        let z = s.next_symmetric();
        Vector3 { x, y, z }
    }

    fn candidate_ok(v: &Vector3) -> (r: bool)
        requires
            v3_wf(*v),
        ensures
            r == Vector3::spec_candidate_ok(*v),
    {
        let l2 = Vector3::dot(v, v);
        1024 <= l2.raw && l2.raw <= 65536
    }

    /// A unit-length direction drawn from `s`, distributed over the sphere by
    /// rejection sampling in the unit ball.
    pub fn random_in_unit_sphere(s: &mut Sampler) -> (r: Vector3)
        ensures
            r == Vector3::spec_random_in_unit_sphere(*old(s)).0,
            *final(s) == Vector3::spec_random_in_unit_sphere(*old(s)).1,
            v3_wf(r),
    {
        proof {
            reveal(Vector3::spec_random_in_unit_sphere);
        }
        let c1 = Vector3::sphere_candidate(s);
        if Vector3::candidate_ok(&c1) {
            return c1.normalize();
        }
        let c2 = Vector3::sphere_candidate(s);
        if Vector3::candidate_ok(&c2) {
            return c2.normalize();
        }
        let c3 = Vector3::sphere_candidate(s);
        if Vector3::candidate_ok(&c3) {
            return c3.normalize();
        }
        Vector3 { x: Fx { raw: 65536 }, y: Fx { raw: 0 }, z: Fx { raw: 0 } }
    }
}

} // verus!
