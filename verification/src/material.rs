//! Surface scattering: diffuse, metal and dielectric materials.

use vstd::prelude::*;

use crate::color::{color_wf, Color};
use crate::fixed::{fx_wf, Fx};
use crate::ray::Ray;
use crate::renderable::{hit_wf, HitRecord};
use crate::sampler::Sampler;
use crate::vector3::Vector3;

verus! {

/// Raw offset a metal bounce moves its origin along the signed normal to
/// avoid immediate self-intersection (about 1e-4).
pub const METAL_OFFSET_RAW: i64 = 7;

/// Raw offset a dielectric bounce moves its origin along the signed normal
/// (about 1e-2).
pub const DIELECTRIC_OFFSET_RAW: i64 = 655;

/// What one scattering event yields: the outgoing ray and the multiplicative
/// color factor it carries.
#[derive(Clone, Copy, Debug, PartialEq, Eq, Structural)]
pub struct ScatterResult {
    pub ray: Ray,
    pub attenuation: Color,
}

pub open spec fn scatter_wf(s: ScatterResult) -> bool {
    crate::ray::ray_wf(s.ray) && color_wf(s.attenuation)
}

/// The closed set of surface behaviors.
#[derive(Clone, Copy, Debug, PartialEq, Eq, Structural)]
pub enum Material {
    /// Lambertian surface with the given reflectance.
    Diffuse { albedo: Color },
    /// Fuzzy mirror; `roughness` in `[0, 1]` scales the perturbation.
    Metal { albedo: Color, roughness: Fx },
    /// Refractive surface with the given index of refraction.
    Dielectric { ior: Fx },
}

pub open spec fn mat_wf(m: Material) -> bool {
    match m {
        Material::Diffuse { albedo } => color_wf(albedo),
        Material::Metal { albedo, roughness } => color_wf(albedo) && fx_wf(roughness),
        Material::Dielectric { ior } => fx_wf(ior),
    }
}

/// Schlick's reflectance approximation
/// `R0 + (1 - R0)(1 - cos)^5`, `R0 = ((1 - iof)/(1 + iof))²`.
pub open spec fn spec_schlick_reflectance(cosine: Fx, iof: Fx) -> Fx {
    let one = Fx { raw: 65536 };
    let r0_base = one.spec_sub(iof).spec_div(one.spec_add(iof));
    let r0 = r0_base.spec_mul(r0_base);
    let p1 = one.spec_sub(cosine);
    let p2 = p1.spec_mul(p1);
    let p4 = p2.spec_mul(p2);
    let p5 = p4.spec_mul(p1);
    r0.spec_add(one.spec_sub(r0).spec_mul(p5))
}

pub fn schlick_reflectance(cosine: Fx, iof: Fx) -> (r: Fx)
    requires
        fx_wf(cosine),
        fx_wf(iof),
    ensures
        r == spec_schlick_reflectance(cosine, iof),
        fx_wf(r),
{
    let one = Fx { raw: 65536 };
    let r0_base = one.sub(iof).div(one.add(iof));
    let r0 = r0_base.mul(r0_base);
    let p1 = one.sub(cosine);
    let p2 = p1.mul(p1);
    let p4 = p2.mul(p2);
    let p5 = p4.mul(p1);
    r0.add(one.sub(r0).mul(p5))
}

/// The diffuse scatter of `albedo` at `hit`, given the sampler state the
/// draw starts from: the outgoing direction is the normal plus a random unit
/// vector, falling back to the normal itself on degenerate cancellation.
pub open spec fn spec_scatter_diffuse(albedo: Color, hit: HitRecord, s: Sampler) -> (
    ScatterResult,
    Sampler,
) {
    let (rv, s1) = Vector3::spec_random_in_unit_sphere(s);
    let d0 = Vector3::spec_sum(hit.n, rv);
    let d = if Vector3::spec_near_zero(d0) {
        hit.n
    } else {
        d0
    };
    (
        ScatterResult {
            ray: Ray { origin: hit.p, direction: d },
            attenuation: albedo,
        },
        s1,
    )
}

/// The metal scatter: mirror-reflect the normalized incoming direction, then
/// perturb by `roughness` times a random unit vector; the bounce starts a
/// small step along the signed normal. Absorbed (`None`) when the perturbed
/// direction does not leave the surface's normal side.
pub open spec fn spec_scatter_metal(
    albedo: Color,
    roughness: Fx,
    r_in: Ray,
    hit: HitRecord,
    s: Sampler,
) -> (Option<ScatterResult>, Sampler) {
    let (rv, s1) = Vector3::spec_random_in_unit_sphere(s);
    let d = Vector3::spec_normalize(r_in.direction);
    let offset = Vector3::spec_scale(hit.n, Fx { raw: METAL_OFFSET_RAW });
    let p_fixed = if hit.front_face {
        Vector3::spec_sum(hit.p, offset)
    } else {
        Vector3::spec_diff(hit.p, offset)
    };
    let reflected = Vector3::spec_reflection(d, hit.n);
    let dir = Vector3::spec_sum(reflected, Vector3::spec_scale(rv, roughness));
    if Vector3::spec_dot(dir, hit.n).raw > 0 {
        (
            Some(
                ScatterResult {
                    ray: Ray { origin: p_fixed, direction: dir },
                    attenuation: albedo,
                },
            ),
            s1,
        )
    } else {
        (None, s1)
    }
}

/// The dielectric scatter: refract or reflect the normalized incoming
/// direction, choosing reflection on total internal reflection or when
/// Schlick's reflectance exceeds a fresh uniform draw; attenuation is always
/// white.
pub open spec fn spec_scatter_dielectric(ior: Fx, r_in: Ray, hit: HitRecord, s: Sampler) -> (
    ScatterResult,
    Sampler,
) {
    let one = Fx { raw: 65536 };
    let refr_ratio = if hit.front_face {
        one.spec_div(ior)
    } else {
        ior
    };
    let unit_dir = Vector3::spec_normalize(r_in.direction);
    let cosa = Vector3::spec_dot(Vector3::spec_neg(unit_dir), hit.n).spec_min(one);
    let sina = one.spec_sub(cosa.spec_mul(cosa)).spec_sqrt();
    let cannot_refract = refr_ratio.spec_mul(sina).raw > 65536;
    let reflectance = spec_schlick_reflectance(cosa, refr_ratio);
    let rand_num = s.spec_unit();
    let s1 = s.spec_step();
    let refracted = if cannot_refract || reflectance.raw > rand_num.raw {
        Vector3::spec_reflection(unit_dir, hit.n)
    } else {
        Vector3::spec_refraction(unit_dir, hit.n, refr_ratio)
    };
    let offset = Vector3::spec_scale(hit.n, Fx { raw: DIELECTRIC_OFFSET_RAW });
    let p_fixed = if hit.front_face {
        Vector3::spec_sum(hit.p, offset)
    } else {
        Vector3::spec_diff(hit.p, offset)
    };
    (
        ScatterResult {
            ray: Ray { origin: p_fixed, direction: refracted },
            attenuation: Color { r: one, g: one, b: one },
        },
        s1,
    )
}

impl Material {
    /// What scattering this material at `hit` returns, with the sampler state
    /// left behind. `None` is full absorption. Opaque: callers relate
    /// scatters by congruence, not by the formulas.
    #[verifier::opaque]
    pub open spec fn spec_scatter(self, r_in: Ray, hit: HitRecord, s: Sampler) -> (
        Option<ScatterResult>,
        Sampler,
    ) {
        match self {
            Material::Diffuse { albedo } => {
                let (r, s1) = spec_scatter_diffuse(albedo, hit, s);
                (Some(r), s1)
            },
            Material::Metal { albedo, roughness } => spec_scatter_metal(
                albedo,
                roughness,
                r_in,
                hit,
                s,
            ),
            Material::Dielectric { ior } => {
                let (r, s1) = spec_scatter_dielectric(ior, r_in, hit, s);
                (Some(r), s1)
            },
        }
    }

    /// Scatter an incoming ray at `hit`, drawing randomness from `s`.
    pub fn scatter(&self, r_in: &Ray, hit: &HitRecord, s: &mut Sampler) -> (r: Option<
        ScatterResult,
    >)
        requires
            mat_wf(*self),
            crate::ray::ray_wf(*r_in),
            hit_wf(*hit),
        ensures
            r == self.spec_scatter(*r_in, *hit, *old(s)).0,
            *final(s) == self.spec_scatter(*r_in, *hit, *old(s)).1,
            r is Some ==> scatter_wf(r->Some_0),
    {
        proof {
            reveal(Material::spec_scatter);
        }
        match self {
            Material::Diffuse { albedo } => {
                let rv = Vector3::random_in_unit_sphere(s);
                let d0 = Vector3::sum(hit.n(), &rv);
                let dir = if d0.near_zero() {
                    hit.n().copy()
                } else {
                    d0
                };
                Some(
                    ScatterResult {
                        ray: Ray::new(hit.p().copy(), dir),
                        attenuation: albedo.copy(),
                    },
                )
            },
            Material::Metal { albedo, roughness } => {
                let rv = Vector3::random_in_unit_sphere(s);
                let d = r_in.get_direction().normalize();
                let offset = Vector3::scale(hit.n(), Fx { raw: METAL_OFFSET_RAW });
                let p_fixed = if hit.front_face() {
                    Vector3::sum(hit.p(), &offset)
                } else {
                    Vector3::diff(hit.p(), &offset)
                };
                let reflected = Vector3::reflection(&d, hit.n());
                let perturb = Vector3::scale(&rv, *roughness);
                let dir = Vector3::sum(&reflected, &perturb);
                if Vector3::dot(&dir, hit.n()).raw > 0 {
                    Some(
                        ScatterResult {
                            ray: Ray::new(p_fixed, dir),
                            attenuation: albedo.copy(),
                        },
                    )
                } else {
                    None
                }
            },
            Material::Dielectric { ior } => {
                let one = Fx { raw: 65536 };
                let refr_ratio = if hit.front_face() {
                    one.div(*ior)
                } else {
                    *ior
                };
                let unit_dir = r_in.get_direction().normalize();
                let neg_dir = unit_dir.neg();
                let cosa = Vector3::dot(&neg_dir, hit.n()).min(one);
                let sina = one.sub(cosa.mul(cosa)).sqrt();
                let cannot_refract = refr_ratio.mul(sina).raw > 65536;
                let reflectance = schlick_reflectance(cosa, refr_ratio);
                let rand_num = s.next_unit();
                let refracted = if cannot_refract || reflectance.raw > rand_num.raw {
                    Vector3::reflection(&unit_dir, hit.n())
                } else {
                    Vector3::refraction(&unit_dir, hit.n(), refr_ratio)
                };
                let offset = Vector3::scale(hit.n(), Fx { raw: DIELECTRIC_OFFSET_RAW });
                let p_fixed = if hit.front_face() {
                    Vector3::sum(hit.p(), &offset)
                } else {
                    Vector3::diff(hit.p(), &offset)
                };
                Some(
                    ScatterResult {
                        ray: Ray::new(p_fixed, refracted),
                        attenuation: Color { r: one, g: one, b: one },
                    },
                )
            },
        }
    }

    /// A snapshot of this material, so each hit can carry its own copy.
    pub fn copy(&self) -> (r: Material)
        ensures
            r == *self,
    {
        *self
    }
}

/// A diffuse scatter always succeeds, its attenuation is exactly the
/// material's albedo, and the outgoing ray starts at the hit point.
pub proof fn lemma_diffuse_scatter(albedo: Color, r_in: Ray, hit: HitRecord, s: Sampler)
    ensures
        ({
            let r = (Material::Diffuse { albedo }).spec_scatter(r_in, hit, s).0;
            r is Some && r->Some_0.attenuation == albedo && r->Some_0.ray.origin == hit.p
        }),
{
    reveal(Material::spec_scatter);
}

/// With zero roughness a metal bounce is a perfect mirror: the outgoing
/// direction is exactly the reflection of the normalized incoming direction
/// about the hit normal, and the bounce survives exactly when that
/// reflection leaves the normal's side.
pub proof fn lemma_metal_mirror(albedo: Color, r_in: Ray, hit: HitRecord, s: Sampler)
    ensures
        ({
            let r = spec_scatter_metal(albedo, Fx { raw: 0 }, r_in, hit, s);
            let reflected = Vector3::spec_reflection(
                Vector3::spec_normalize(r_in.direction),
                hit.n,
            );
            &&& (r.0 is Some <==> Vector3::spec_dot(reflected, hit.n).raw > 0)
            &&& (r.0 is Some ==> r.0->Some_0.ray.direction == reflected)
        }),
{
    let rv = Vector3::spec_random_in_unit_sphere(s).0;
    let zero = Fx { raw: 0 };
    let scaled = Vector3::spec_scale(rv, zero);
    assert(rv.x.raw * 0 == 0) by (nonlinear_arith);
    assert(rv.y.raw * 0 == 0) by (nonlinear_arith);
    assert(rv.z.raw * 0 == 0) by (nonlinear_arith);
    assert(scaled.x.raw == 0);
    assert(scaled.y.raw == 0);
    assert(scaled.z.raw == 0);
    let reflected = Vector3::spec_reflection(Vector3::spec_normalize(r_in.direction), hit.n);
    assert(Vector3::spec_sum(reflected, scaled) == reflected);
}

/// With an index of refraction of one, the dielectric's refraction ratio is
/// one whichever face the ray strikes: entering divides one by one, leaving
/// uses the index itself. Its attenuation is always white, and total
/// internal reflection can never trigger, because the ratio times the
/// angle's sine never exceeds one — so the bounce refracts whenever the
/// reflectance stays at or below the uniform draw.
pub proof fn lemma_dielectric_unit_ior(r_in: Ray, hit: HitRecord, s: Sampler)
    ensures
        (Fx { raw: 65536 }).spec_div(Fx { raw: 65536 }) == (Fx { raw: 65536 }),
        ({
            let r = spec_scatter_dielectric(Fx { raw: 65536 }, r_in, hit, s);
            r.0.attenuation == (Color {
                r: Fx { raw: 65536 },
                g: Fx { raw: 65536 },
                b: Fx { raw: 65536 },
            })
        }),
        ({
            let one = Fx { raw: 65536 };
            let unit_dir = Vector3::spec_normalize(r_in.direction);
            let cosa = Vector3::spec_dot(Vector3::spec_neg(unit_dir), hit.n).spec_min(one);
            let sina = one.spec_sub(cosa.spec_mul(cosa)).spec_sqrt();
            one.spec_mul(sina).raw <= 65536
        }),
{
    assert((65536int) * 65536 == 0x1_0000_0000) by (nonlinear_arith);
    assert((0x1_0000_0000int) / 65536 == 65536) by (nonlinear_arith);
    assert(crate::fixed::tdiv(0x1_0000_0000, 65536) == 65536);
    let one = Fx { raw: 65536 };
    let unit_dir = Vector3::spec_normalize(r_in.direction);
    let cosa = Vector3::spec_dot(Vector3::spec_neg(unit_dir), hit.n).spec_min(one);
    assert((cosa.raw as int) * (cosa.raw as int) >= 0) by (nonlinear_arith);
    let x = one.spec_sub(cosa.spec_mul(cosa));
    assert(x.raw <= 65536);
    let sina = x.spec_sqrt();
    if x.raw > 0 {
        let xi = x.raw * (crate::fixed::FX_SCALE as int);
        crate::fixed::lemma_sqrt_floor(xi);
        assert(crate::fixed::sqrt_floor(xi) <= 65536) by (nonlinear_arith)
            requires
                crate::fixed::sqrt_floor(xi) * crate::fixed::sqrt_floor(xi) <= xi,
                xi <= 0x1_0000_0000,
                crate::fixed::sqrt_floor(xi) >= 0;
    }
    assert(sina.raw <= 65536 && sina.raw >= 0);
    crate::fixed::lemma_mul_one(sina);
    assert((65536int) * (sina.raw as int) == (sina.raw as int) * 65536) by (nonlinear_arith);
    assert(one.spec_mul(sina) == sina.spec_mul(one));
}

} // verus!
