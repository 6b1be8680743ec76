//! Rays: an origin plus a direction, with the parametric point-at operation.

use vstd::prelude::*;

use crate::fixed::{fx_wf, Fx};
use crate::vector3::{v3_wf, Vector3};

verus! {

#[derive(Clone, Copy, Debug, PartialEq, Eq, Structural)]
pub struct Ray {
    pub origin: Vector3,
    pub direction: Vector3,
}

pub open spec fn ray_wf(r: Ray) -> bool {
    v3_wf(r.origin) && v3_wf(r.direction)
}

impl Ray {
    pub fn new(orig: Vector3, dir: Vector3) -> (r: Ray)
        ensures
            r == (Ray { origin: orig, direction: dir }),
    {
        Ray { origin: orig, direction: dir }
    }

    pub fn get_origin(&self) -> (r: &Vector3)
        ensures
            *r == self.origin,
    {
        &self.origin
    }

    pub fn get_direction(&self) -> (r: &Vector3)
        ensures
            *r == self.direction,
    {
        &self.direction
    }

    /// The point `origin + t·direction`.
    pub open spec fn spec_at(self, t: Fx) -> Vector3 {
        Vector3::spec_sum(self.origin, Vector3::spec_scale(self.direction, t))
    }

    pub fn at(&self, t: Fx) -> (p: Vector3)
        requires
            ray_wf(*self),
            fx_wf(t),
        ensures
            p == self.spec_at(t),
            v3_wf(p),
    {
        let dt = Vector3::scale(&self.direction, t);
        Vector3::sum(&self.origin, &dt)
    }
}

} // verus!
