use raybow::camera::Camera;
use raybow::color::Color;
use raybow::fixed::Fx;
use raybow::material::{schlick_reflectance, Material};
use raybow::node::Node;
use raybow::ray::Ray;
use raybow::renderable::{HitRecord, Renderable};
use raybow::sampler::Sampler;
use raybow::scene::Scene;
use raybow::sphere::Sphere;
use raybow::vector2::Vector2;
use raybow::vector3::Vector3;

fn v(x: i64, y: i64, z: i64) -> Vector3 {
    Vector3::new(Fx::from_int(x), Fx::from_int(y), Fx::from_int(z))
}

#[test]
fn scene_holds_cameras() {
    let mut scene = Scene::new();
    let camera = Camera::new().set_aspect_ratio(Fx::from_int(2)).build();
    scene.add_camera(camera);
    let got = scene.get_camera(0).expect("first camera present");
    assert_eq!(got.aspect_ratio, Fx::from_int(2));
    assert!(scene.get_camera(1).is_none());
}

#[test]
fn node_links_through_arena() {
    let mut scene = Scene::new();
    let root_idx = scene.add_child(Node::new());
    let child_idx = scene.add_child_to(root_idx, Node::new());
    assert_eq!(scene.nodes[child_idx].get_parent(), Some(root_idx));
    assert_eq!(scene.nodes[root_idx].get_children().as_slice(), &[child_idx]);
    assert!(scene.nodes[root_idx].get_parent().is_none());
    assert!(scene.nodes[root_idx].renderable().is_none());
}

#[test]
fn ray_point_at_parameter() {
    let ray = Ray::new(v(1, 2, 3), v(0, 0, -2));
    assert_eq!(ray.at(Fx::from_ratio(3, 2)), v(1, 2, 0));
    assert_eq!(*ray.get_origin(), v(1, 2, 3));
    assert_eq!(*ray.get_direction(), v(0, 0, -2));
}

#[test]
fn vector_algebra_identities() {
    let x = v(1, 0, 0);
    let y = v(0, 1, 0);
    assert_eq!(Vector3::cross(&x, &y), v(0, 0, 1));
    assert_eq!(Vector3::sum(&x, &y), v(1, 1, 0));
    assert_eq!(Vector3::diff(&x, &y), Vector3::new(
        Fx::from_int(1),
        Fx::from_int(-1),
        Fx::from_int(0),
    ));
    assert_eq!(Vector3::dot(&v(1, 2, 3), &v(4, 5, 6)), Fx::from_int(32));
    assert_eq!(Vector3::scale(&v(1, 2, 3), Fx::from_int(2)), v(2, 4, 6));
    assert_eq!(Vector3::distance(&v(1, 0, 0), &v(1, 3, 4)), Fx::from_int(5));
    assert_eq!(v(0, 3, 4).length(), Fx::from_int(5));
    assert_eq!(v(2, -3, 4).neg(), Vector3::new(
        Fx::from_int(-2),
        Fx::from_int(3),
        Fx::from_int(-4),
    ));
    assert!(Vector3::new(Fx { raw: 0 }, Fx { raw: 1 }, Fx { raw: -1 }).near_zero());
    assert!(!v(0, 0, 1).near_zero());
    // reflecting a downward diagonal about the vertical axis flips its y
    let d = Vector3::new(Fx::from_int(1), Fx::from_int(-1), Fx::from_int(0));
    assert_eq!(Vector3::reflection(&d, &v(0, 1, 0)), v(1, 1, 0));
    // projecting (2, 2, 0) onto the x axis keeps the x part
    assert_eq!(Vector3::orth_proj(&v(1, 0, 0), &v(2, 2, 0)), v(2, 0, 0));
    assert_eq!(Vector2::lerp(
        Vector2::new(Fx::from_int(0), Fx::from_int(0)),
        Vector2::new(Fx::from_int(2), Fx::from_int(4)),
        Fx::from_ratio(1, 2),
    ), Vector2::new(Fx::from_int(1), Fx::from_int(2)));
}

#[test]
fn fx_min_max_abs() {
    let a = Fx::from_int(-3);
    let b = Fx::from_int(2);
    assert_eq!(a.min(b), a);
    assert_eq!(a.max(b), b);
    assert_eq!(a.abs(), Fx::from_int(3));
    assert!(a.lt(b));
    assert!(a.le(a));
    assert!(!b.le(a));
}

#[test]
fn schlick_reflectance_reference_values() {
    let iof = Fx::from_ratio(3, 2);
    // grazing incidence (cos = 0) reflects fully
    assert_eq!(schlick_reflectance(Fx { raw: 0 }, iof), Fx::from_int(1));
    // head-on incidence reduces to R0 = ((1 - 1.5)/(1 + 1.5))^2 = 0.04
    let r0 = schlick_reflectance(Fx::from_int(1), iof);
    assert!((r0.raw - 2621).abs() <= 2, "R0 = {}", r0.raw);
}

#[test]
fn dielectric_total_internal_reflection() {
    let mat = Material::Dielectric { ior: Fx::from_ratio(3, 2) };
    let n = v(0, 0, 1);
    // leaving the dense medium at a grazing angle: sin over the critical one
    let dir = Vector3::new(Fx::from_ratio(9, 10), Fx { raw: 0 }, Fx::from_ratio(-3, 10))
        .normalize();
    let hit = HitRecord::new(v(0, 0, 0), n, Fx::from_int(1), false, mat);
    let ray = Ray::new(v(0, 0, 1), dir);
    let mut s = Sampler::Fixed(u64::MAX);
    let res = mat.scatter(&ray, &hit, &mut s).expect("dielectric always scatters");
    assert_eq!(res.ray.direction, Vector3::reflection(&dir.normalize(), &n));
}

#[test]
fn normal_color_maps_into_unit_cube() {
    let sphere = Sphere::new(v(0, 0, 0), Fx::from_int(1), Material::Dielectric {
        ior: Fx::from_ratio(3, 2),
    });
    let hit = HitRecord::new(v(0, 0, 1), v(0, 0, 1), Fx::from_int(1), true, sphere.material);
    let c = sphere.get_color(&hit);
    assert_eq!(c, Color::new(Fx::from_ratio(1, 2), Fx::from_ratio(1, 2), Fx::from_int(1)));
    let rend = Renderable::Sphere(sphere);
    assert_eq!(rend.get_color(&hit), c);
}

#[test]
fn sphere_normal_points_outward() {
    let sphere = Sphere::new(v(0, 0, -2), Fx::from_ratio(1, 2), Material::Diffuse {
        albedo: Color::new(Fx::from_int(1), Fx::from_int(1), Fx::from_int(1)),
    });
    let p = Vector3::new(Fx::from_int(0), Fx::from_ratio(1, 2), Fx::from_int(-2));
    assert_eq!(sphere.normal(&p), v(0, 1, 0));
}
