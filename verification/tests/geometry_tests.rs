use raybow::color::Color;
use raybow::fixed::{Fx, FX_MAX_RAW};
use raybow::material::Material;
use raybow::ray::Ray;
use raybow::sampler::Sampler;
use raybow::sphere::Sphere;
use raybow::vector3::Vector3;
use raybow::trig::{deg_to_rad, fx_cos, fx_sin, fx_tan};

fn white() -> Color {
    Color::new(Fx::from_int(1), Fx::from_int(1), Fx::from_int(1))
}

fn unit_sphere_at(z: i64, radius_num: i64, radius_den: i64) -> Sphere {
    Sphere::new(
        Vector3::new(Fx::from_int(0), Fx::from_int(0), Fx::from_int(z)),
        Fx::from_ratio(radius_num, radius_den),
        Material::Diffuse { albedo: white() },
    )
}

#[test]
fn fx_arithmetic_basics() {
    assert_eq!(Fx::from_int(3).add(Fx::from_int(4)), Fx::from_int(7));
    assert_eq!(Fx::from_int(3).mul(Fx::from_int(4)), Fx::from_int(12));
    assert_eq!(Fx::from_int(12).div(Fx::from_int(4)), Fx::from_int(3));
    assert_eq!(Fx::from_int(4).sqrt(), Fx::from_int(2));
    assert_eq!(Fx::from_ratio(1, 4).sqrt(), Fx::from_ratio(1, 2));
    // division by zero saturates toward the numerator's sign
    assert_eq!(Fx::from_int(1).div(Fx { raw: 0 }).raw, FX_MAX_RAW);
    assert_eq!(Fx::from_int(-1).div(Fx { raw: 0 }).raw, -FX_MAX_RAW);
    // square roots of nonpositive scalars collapse to zero
    assert_eq!(Fx::from_int(-9).sqrt().raw, 0);
}

#[test]
fn trig_reference_values() {
    assert_eq!(fx_sin(Fx { raw: 0 }).raw, 0);
    let s90 = fx_sin(deg_to_rad(Fx::from_int(90)));
    assert!((s90.raw - 65536).abs() <= 64, "sin 90 deg = {}", s90.raw);
    let c0 = fx_cos(Fx { raw: 0 });
    assert!((c0.raw - 65536).abs() <= 64, "cos 0 = {}", c0.raw);
    let t45 = fx_tan(deg_to_rad(Fx::from_int(45)));
    assert!((t45.raw - 65536).abs() <= 96, "tan 45 deg = {}", t45.raw);
    let s270 = fx_sin(deg_to_rad(Fx::from_int(270)));
    assert!((s270.raw + 65536).abs() <= 64, "sin 270 deg = {}", s270.raw);
}

#[test]
fn ray_through_center_reports_smaller_root() {
    // sphere at (0,0,-2) radius 0.5; ray from origin along -z: roots 1.5, 2.5
    let sphere = unit_sphere_at(-2, 1, 2);
    let ray = Ray::new(
        Vector3::new(Fx::from_int(0), Fx::from_int(0), Fx::from_int(0)),
        Vector3::new(Fx::from_int(0), Fx::from_int(0), Fx::from_int(-1)),
    );
    let hit = sphere
        .trace(&ray, Fx { raw: 7 }, Fx::from_int(10000), Fx::from_int(1))
        .expect("ray through the center must hit");
    assert_eq!(hit.t, Fx::from_ratio(3, 2));
    assert!(hit.front_face);
    // the surface normal at the near pole points back along the ray
    assert_eq!(hit.n, Vector3::new(Fx::from_int(0), Fx::from_int(0), Fx::from_int(1)));
    // narrowing t_max past the near root reports the far root instead
    let far = sphere
        .trace(&ray, Fx::from_int(2), Fx::from_int(10000), Fx::from_int(1))
        .expect("far root still in range");
    assert_eq!(far.t, Fx::from_ratio(5, 2));
    assert!(!far.front_face);
}

#[test]
fn hit_point_lies_on_sphere_surface() {
    let sphere = unit_sphere_at(-2, 1, 2);
    // a slanted ray that still strikes the sphere
    let dir = Vector3::new(Fx::from_ratio(1, 10), Fx::from_ratio(-1, 20), Fx::from_int(-1))
        .normalize();
    let ray = Ray::new(
        Vector3::new(Fx::from_ratio(1, 10), Fx::from_int(0), Fx::from_int(0)),
        dir,
    );
    let hit = sphere
        .trace(&ray, Fx { raw: 7 }, Fx::from_int(10000), Fx::from_int(1))
        .expect("slanted ray must hit");
    let center = sphere.get_center_by_frame(Fx::from_int(1));
    let dist = Vector3::distance(&hit.p, &center);
    let radius = sphere.get_radius_by_frame(Fx::from_int(1));
    assert!(
        (dist.raw - radius.raw).abs() <= 32,
        "|point - center| = {} vs radius {}",
        dist.raw,
        radius.raw
    );
}

#[test]
fn miss_returns_none() {
    let sphere = unit_sphere_at(-2, 1, 2);
    let ray = Ray::new(
        Vector3::new(Fx::from_int(0), Fx::from_int(0), Fx::from_int(0)),
        Vector3::new(Fx::from_int(0), Fx::from_int(0), Fx::from_int(1)),
    );
    assert!(sphere.trace(&ray, Fx { raw: 7 }, Fx::from_int(10000), Fx::from_int(1)).is_none());
}

#[test]
fn diffuse_attenuation_is_albedo_and_origin_is_hit_point() {
    let albedo = Color::new(Fx::from_ratio(1, 10), Fx::from_ratio(2, 10), Fx::from_ratio(5, 10));
    let mat = Material::Diffuse { albedo };
    let hit = raybow::renderable::HitRecord::new(
        Vector3::new(Fx::from_int(1), Fx::from_int(2), Fx::from_int(3)),
        Vector3::new(Fx::from_int(0), Fx::from_int(1), Fx::from_int(0)),
        Fx::from_int(1),
        true,
        mat,
    );
    let ray = Ray::new(
        Vector3::new(Fx::from_int(0), Fx::from_int(0), Fx::from_int(0)),
        Vector3::new(Fx::from_int(0), Fx::from_int(-1), Fx::from_int(0)),
    );
    let mut s = Sampler::Pseudo(42);
    for _ in 0..16 {
        let res = mat.scatter(&ray, &hit, &mut s).expect("diffuse always scatters");
        assert_eq!(res.attenuation, albedo);
        assert_eq!(res.ray.origin, hit.p);
    }
}

#[test]
fn metal_zero_roughness_is_perfect_mirror() {
    let albedo = white();
    let mat = Material::Metal { albedo, roughness: Fx { raw: 0 } };
    let n = Vector3::new(Fx::from_int(0), Fx::from_int(1), Fx::from_int(0));
    let hit = raybow::renderable::HitRecord::new(
        Vector3::new(Fx::from_int(0), Fx::from_int(0), Fx::from_int(0)),
        n,
        Fx::from_int(1),
        true,
        mat,
    );
    let dir = Vector3::new(Fx::from_ratio(1, 2), Fx::from_int(-1), Fx::from_int(0));
    let ray = Ray::new(Vector3::new(Fx::from_int(0), Fx::from_int(1), Fx::from_int(0)), dir);
    let mut s = Sampler::Pseudo(7);
    let res = mat.scatter(&ray, &hit, &mut s).expect("mirror bounce survives");
    let expected = Vector3::reflection(&dir.normalize(), &n);
    assert_eq!(res.ray.direction, expected);
    assert_eq!(res.attenuation, albedo);
}

#[test]
fn metal_absorbs_bounce_into_surface() {
    // a reflection that still points into the surface is absorbed
    let mat = Material::Metal { albedo: white(), roughness: Fx { raw: 0 } };
    let hit = raybow::renderable::HitRecord::new(
        Vector3::new(Fx::from_int(0), Fx::from_int(0), Fx::from_int(0)),
        Vector3::new(Fx::from_int(0), Fx::from_int(-1), Fx::from_int(0)),
        Fx::from_int(1),
        false,
        mat,
    );
    let ray = Ray::new(
        Vector3::new(Fx::from_int(0), Fx::from_int(1), Fx::from_int(0)),
        Vector3::new(Fx::from_int(0), Fx::from_int(-1), Fx::from_int(0)),
    );
    let mut s = Sampler::Pseudo(7);
    // reflecting (0,-1,0) about n=(0,-1,0) gives (0,1,0); against the hit
    // normal (0,-1,0) the dot is negative, so the metal absorbs
    assert!(mat.scatter(&ray, &hit, &mut s).is_none());
}

#[test]
fn dielectric_unit_ior_does_not_bend_axis_ray() {
    let mat = Material::Dielectric { ior: Fx::from_int(1) };
    let n = Vector3::new(Fx::from_int(0), Fx::from_int(0), Fx::from_int(1));
    let hit = raybow::renderable::HitRecord::new(
        Vector3::new(Fx::from_int(0), Fx::from_int(0), Fx::from_int(-1)),
        n,
        Fx::from_int(1),
        true,
        mat,
    );
    let ray = Ray::new(
        Vector3::new(Fx::from_int(0), Fx::from_int(0), Fx::from_int(0)),
        Vector3::new(Fx::from_int(0), Fx::from_int(0), Fx::from_int(-1)),
    );
    let mut s = Sampler::Fixed(u64::MAX);
    let res = mat.scatter(&ray, &hit, &mut s).expect("dielectric always scatters");
    // head-on through an index of one: the direction is exactly unchanged
    assert_eq!(res.ray.direction, Vector3::new(Fx::from_int(0), Fx::from_int(0), Fx::from_int(-1)));
    assert_eq!(res.attenuation, white());
}

#[test]
fn dielectric_unit_ior_nearly_straight_slanted_ray() {
    let mat = Material::Dielectric { ior: Fx::from_int(1) };
    let n = Vector3::new(Fx::from_int(0), Fx::from_int(0), Fx::from_int(1));
    let hit = raybow::renderable::HitRecord::new(
        Vector3::new(Fx::from_int(0), Fx::from_int(0), Fx::from_int(-1)),
        n,
        Fx::from_int(1),
        true,
        mat,
    );
    let dir = Vector3::new(Fx::from_ratio(1, 3), Fx::from_ratio(-1, 5), Fx::from_int(-1))
        .normalize();
    let ray = Ray::new(Vector3::new(Fx::from_int(0), Fx::from_int(0), Fx::from_int(0)), dir);
    let mut s = Sampler::Fixed(u64::MAX);
    let res = mat.scatter(&ray, &hit, &mut s).expect("dielectric always scatters");
    // refraction at a ratio of one only rounds: each component stays within
    // a few quanta of the incoming unit direction
    assert!((res.ray.direction.x.raw - dir.x.raw).abs() <= 8);
    assert!((res.ray.direction.y.raw - dir.y.raw).abs() <= 8);
    assert!((res.ray.direction.z.raw - dir.z.raw).abs() <= 8);
}
