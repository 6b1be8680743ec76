//! Intersection results and the closed set of renderable primitives.

use vstd::prelude::*;

use crate::color::Color;
use crate::fixed::{fx_wf, Fx};
use crate::material::{mat_wf, Material};
use crate::ray::Ray;
use crate::sphere::Sphere;
use crate::vector3::{v3_wf, Vector3};

verus! {

/// One intersection: the hit point, the unit normal opposing the incoming
/// ray, the ray parameter, whether the front face was struck, and a snapshot
/// of the surface's material.
#[derive(Clone, Copy, Debug, PartialEq, Eq, Structural)]
pub struct HitRecord {
    pub p: Vector3,
    pub n: Vector3,
    pub t: Fx,
    pub front_face: bool,
    pub material: Material,
}

pub open spec fn hit_wf(h: HitRecord) -> bool {
    v3_wf(h.p) && v3_wf(h.n) && fx_wf(h.t) && mat_wf(h.material)
}

impl HitRecord {
    pub fn new(p: Vector3, n: Vector3, t: Fx, front_face: bool, material: Material) -> (r:
        HitRecord)
        ensures
            r == (HitRecord { p, n, t, front_face, material }),
    {
        HitRecord { p, n, t, front_face, material }
    }

    pub fn p(&self) -> (r: &Vector3)
        ensures
            *r == self.p,
    {
        &self.p
    }

    pub fn n(&self) -> (r: &Vector3)
        ensures
            *r == self.n,
    {
        &self.n
    }

    pub fn t(&self) -> (r: Fx)
        ensures
            r == self.t,
    {
        self.t
    }

    pub fn front_face(&self) -> (r: bool)
        ensures
            r == self.front_face,
    {
        self.front_face
    }

    pub fn material(&self) -> (r: &Material)
        ensures
            *r == self.material,
    {
        &self.material
    }
}

/// The closed set of primitives a node can render. A sphere is the only
/// member today; adding a primitive adds a variant and an arm to each method.
#[derive(Clone, Debug)]
pub enum Renderable {
    Sphere(Sphere),
}

pub open spec fn renderable_wf(r: Renderable) -> bool {
    match r {
        Renderable::Sphere(s) => crate::sphere::sphere_wf(s),
    }
}

impl Renderable {
    /// What tracing this primitive returns.
    pub open spec fn spec_trace(self, ray: Ray, t_min: Fx, t_max: Fx, f: Fx) -> Option<
        HitRecord,
    > {
        match self {
            Renderable::Sphere(s) => s.spec_trace(ray, t_min, t_max, f),
        }
    }

    pub fn trace(&self, ray: &Ray, t_min: Fx, t_max: Fx, f: Fx) -> (r: Option<HitRecord>)
        requires
            renderable_wf(*self),
            crate::ray::ray_wf(*ray),
            fx_wf(t_min),
            fx_wf(t_max),
            fx_wf(f),
        ensures
            r == self.spec_trace(*ray, t_min, t_max, f),
            r is Some ==> hit_wf(r->Some_0),
            r is Some ==> t_min.raw <= r->Some_0.t.raw <= t_max.raw,
    {
        match self {
            Renderable::Sphere(s) => s.trace(ray, t_min, t_max, f),
        }
    }

    /// The normal-visualization color of a hit on this primitive.
    pub open spec fn spec_get_color(self, hit: HitRecord) -> Color {
        match self {
            Renderable::Sphere(s) => s.spec_get_color(hit),
        }
    }

    pub fn get_color(&self, hit_record: &HitRecord) -> (c: Color)
        requires
            renderable_wf(*self),
            hit_wf(*hit_record),
        ensures
            c == self.spec_get_color(*hit_record),
            crate::color::color_wf(c),
    {
        match self {
            Renderable::Sphere(s) => s.get_color(hit_record),
        }
    }
}

} // verus!
