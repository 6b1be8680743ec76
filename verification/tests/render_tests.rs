use raybow::camera::Camera;
use raybow::color::Color;
use raybow::fixed::Fx;
use raybow::material::Material;
use raybow::node::Node;
use raybow::render::{band_bounds, merge_band, render, render_image, ray_color};
use raybow::ray::Ray;
use raybow::sampler::Sampler;
use raybow::scene::Scene;
use raybow::sphere::Sphere;
use raybow::renderable::Renderable;
use raybow::utils::GeneralInfo;
use raybow::vector3::Vector3;
use raybow::animation::{AnimationChannel, AnimationKey};
use raybow::node::NodeChannelTarget;

fn info(width: u64, height: u64, samples: u64, depth: u64, threads: u64) -> GeneralInfo {
    GeneralInfo {
        out_filename: String::from("out"),
        out_width: width,
        out_height: height,
        aa_sampling: samples,
        ray_recursion: depth,
        threads,
        animation: false,
    }
}

fn default_camera() -> Camera {
    Camera::new().set_aspect_ratio(Fx::from_int(1)).set_vertical_field_of_view(
        Fx::from_int(60),
    ).build()
}

fn white() -> Color {
    Color::new(Fx::from_int(1), Fx::from_int(1), Fx::from_int(1))
}

fn centered_sphere_scene() -> Scene {
    let mut scene = Scene::new();
    let sphere = Sphere::new(
        Vector3::new(Fx::from_int(0), Fx::from_int(0), Fx::from_int(-1)),
        Fx::from_ratio(1, 2),
        Material::Diffuse { albedo: white() },
    );
    let mut node = Node::new();
    node.set_renderable(Renderable::Sphere(sphere));
    scene.add_child(node);
    scene
}

/// The background gradient a miss must produce, written out from the public
/// pieces: `t = clamp(0.5 (unit_y + 1))`, then white toward sky blue.
fn expected_background(direction: &Vector3) -> Color {
    let one = Fx::from_int(1);
    let half = Fx::from_ratio(1, 2);
    let unit = direction.normalize();
    let t = half.mul(unit.y.add(one)).max(Fx { raw: 0 }).min(one);
    let c1 = Color::scale(&white(), one.sub(t));
    let sky = Color::new(half, Fx { raw: 45875 }, one);
    let c2 = Color::scale(&sky, t);
    Color::add(&c1, &c2)
}

#[test]
fn empty_scene_pixels_equal_background() {
    let scene = Scene::new();
    let camera = default_camera();
    let cfg = info(2, 2, 1, 3, 1);
    let seed = 0x1234_5678u64;
    let mut s = Sampler::Fixed(seed);
    let image = render_image(&cfg, &camera, &scene, Fx::from_int(1), &mut s);
    assert_eq!(image.len(), 4);
    for h in 0..2u64 {
        for w in 0..2u64 {
            // a Fixed sampler reproduces the very same ray for each pixel
            let mut s2 = Sampler::Fixed(seed);
            let r = camera.get_ray(w, h, 2, 2, &mut s2);
            let mut expected = expected_background(&r.direction);
            expected.clamp();
            assert_eq!(image[(h * 2 + w) as usize], expected);
        }
    }
}

#[test]
fn zero_samples_takes_single_unaveraged_sample() {
    // a sample count of zero disables averaging: one sample, not black
    let scene = Scene::new();
    let camera = default_camera();
    let seed = 5u64;
    let mut s0 = Sampler::Fixed(seed);
    let zero = render_image(&info(2, 2, 0, 2, 1), &camera, &scene, Fx::from_int(1), &mut s0);
    for h in 0..2u64 {
        for w in 0..2u64 {
            let mut s2 = Sampler::Fixed(seed);
            let r = camera.get_ray(w, h, 2, 2, &mut s2);
            let mut expected = expected_background(&r.direction);
            expected.clamp();
            assert_eq!(zero[(h * 2 + w) as usize], expected);
        }
    }
    // averaging a single sample multiplies by one exactly, so a one-sample
    // render is pixel-for-pixel the same image
    let mut s1 = Sampler::Fixed(seed);
    let one = render_image(&info(2, 2, 1, 2, 1), &camera, &scene, Fx::from_int(1), &mut s1);
    assert_eq!(zero, one);
}

#[test]
fn empty_scene_background_independent_of_sample_count() {
    let scene = Scene::new();
    let camera = default_camera();
    let seed = 99u64;
    let mut s1 = Sampler::Fixed(seed);
    let one_sample = render_image(&info(2, 2, 1, 3, 1), &camera, &scene, Fx::from_int(1), &mut s1);
    let mut s8 = Sampler::Fixed(seed);
    let eight_samples = render_image(
        &info(2, 2, 8, 3, 1),
        &camera,
        &scene,
        Fx::from_int(1),
        &mut s8,
    );
    // averaging identical background samples rounds by at most a few quanta
    for (a, b) in one_sample.iter().zip(eight_samples.iter()) {
        assert!((a.r.raw - b.r.raw).abs() <= 8);
        assert!((a.g.raw - b.g.raw).abs() <= 8);
        assert!((a.b.raw - b.b.raw).abs() <= 8);
    }
}

#[test]
fn missing_rays_blend_background_hitting_rays_darken() {
    // scenario: a single centered diffuse sphere, 2x2, depth 1, one sample
    let scene = centered_sphere_scene();
    let camera = default_camera();
    let cfg = info(2, 2, 1, 1, 1);
    let seed = 7u64;
    let mut s = Sampler::Fixed(seed);
    let image = render_image(&cfg, &camera, &scene, Fx::from_int(1), &mut s);
    let mut hits = 0;
    for h in 0..2u64 {
        for w in 0..2u64 {
            let mut s2 = Sampler::Fixed(seed);
            let r = camera.get_ray(w, h, 2, 2, &mut s2);
            let px = image[(h * 2 + w) as usize];
            let hit = scene.trace(&r, Fx { raw: 7 }, Fx::from_int(10000), Fx::from_int(1));
            if hit.is_none() {
                let mut expected = expected_background(&r.direction);
                expected.clamp();
                assert_eq!(px, expected);
            } else {
                hits += 1;
                // one bounce against the sphere at depth 1 terminates black:
                // strictly darker than white on every channel
                assert!(px.r.raw < 65536 && px.g.raw < 65536 && px.b.raw < 65536);
            }
        }
    }
    assert!(hits > 0, "the centered sphere must cover part of the raster");
}

#[test]
fn ray_color_depth_zero_is_black() {
    let scene = centered_sphere_scene();
    let ray = Ray::new(
        Vector3::new(Fx::from_int(0), Fx::from_int(0), Fx::from_int(0)),
        Vector3::new(Fx::from_int(0), Fx::from_int(0), Fx::from_int(-1)),
    );
    let mut s = Sampler::Pseudo(5);
    let c = ray_color(&scene, ray, 0, Fx::from_int(1), &mut s);
    assert_eq!(c, Color::new(Fx { raw: 0 }, Fx { raw: 0 }, Fx { raw: 0 }));
}

#[test]
fn band_bounds_tile_the_rows() {
    assert_eq!(band_bounds(0, 3, 10), (0, 3));
    assert_eq!(band_bounds(1, 3, 10), (3, 6));
    assert_eq!(band_bounds(2, 3, 10), (6, 10));
    assert_eq!(band_bounds(0, 1, 5), (0, 5));
    // more workers than rows: empty bands, the last takes everything
    assert_eq!(band_bounds(0, 8, 4), (0, 0));
    assert_eq!(band_bounds(7, 8, 4), (0, 4));
}

#[test]
fn merge_band_scatters_at_row_offset() {
    let black = Color::new(Fx { raw: 0 }, Fx { raw: 0 }, Fx { raw: 0 });
    let mut data = vec![black; 6];
    let part = vec![
        Color::new(Fx::from_int(1), Fx { raw: 0 }, Fx { raw: 0 }),
        Color::new(Fx { raw: 0 }, Fx::from_int(1), Fx { raw: 0 }),
    ];
    merge_band(&mut data, 1, 2, &part);
    assert_eq!(data[0], black);
    assert_eq!(data[1], black);
    assert_eq!(data[2], part[0]);
    assert_eq!(data[3], part[1]);
    assert_eq!(data[4], black);
    assert_eq!(data[5], black);
}

#[test]
fn banded_render_matches_single_pass_with_stubbed_sampler() {
    // concurrency scenario: same static scene, 1 worker vs 3 bands, random
    // sampling stubbed to a fixed value
    let scene = centered_sphere_scene();
    let camera = default_camera();
    let cfg = info(4, 5, 2, 2, 3);
    let seed = 0xfeedu64;
    let mut s = Sampler::Fixed(seed);
    let single = render_image(&cfg, &camera, &scene, Fx::from_int(1), &mut s);
    let black = Color::new(Fx { raw: 0 }, Fx { raw: 0 }, Fx { raw: 0 });
    let mut merged = vec![black; 20];
    for i in 0..3u64 {
        let (h0, h1) = band_bounds(i, cfg.threads, cfg.out_height);
        let mut sb = Sampler::Fixed(seed);
        let part = render(0, cfg.out_width, h0, h1, &cfg, &camera, &scene, Fx::from_int(1), &mut sb);
        assert_eq!(part.len() as u64, (h1 - h0) * cfg.out_width);
        merge_band(&mut merged, h0, cfg.out_width, &part);
    }
    assert_eq!(single, merged);
}

#[test]
fn update_transforms_twice_is_idempotent() {
    let mut scene = Scene::new();
    let mut root = Node::new();
    root.set_translation(Vector3::new(Fx::from_int(1), Fx::from_int(2), Fx::from_int(3)));
    root.set_rotation(Vector3::new(Fx::from_int(20), Fx::from_int(-35), Fx::from_int(140)));
    let root_idx = scene.add_child(root);
    let mut child = Node::new();
    child.set_scale(Vector3::new(Fx::from_int(2), Fx::from_int(2), Fx::from_int(2)));
    let mut ch = AnimationChannel::new();
    ch.add_key(AnimationKey::new(Fx::from_int(0), Fx::from_int(0)));
    ch.add_key(AnimationKey::new(Fx::from_int(10), Fx::from_int(4)));
    child.set_animation_channel(NodeChannelTarget::TranslationY, ch);
    let child_idx = scene.add_child_to(root_idx, child);

    let frame = Fx::from_int(5);
    scene.update_transforms(frame);
    let root_once = *scene.nodes[root_idx].get_transform_matrix();
    let child_once = *scene.nodes[child_idx].get_transform_matrix();
    scene.update_transforms(frame);
    assert_eq!(*scene.nodes[root_idx].get_transform_matrix(), root_once);
    assert_eq!(*scene.nodes[child_idx].get_transform_matrix(), child_once);
}

#[test]
fn child_transform_composes_under_parent() {
    // an unrotated parent: composition reduces to adding translations
    let mut scene = Scene::new();
    let mut root = Node::new();
    root.set_translation(Vector3::new(Fx::from_int(1), Fx::from_int(2), Fx::from_int(3)));
    let root_idx = scene.add_child(root);
    let mut child = Node::new();
    let mut ch = AnimationChannel::new();
    ch.add_key(AnimationKey::new(Fx::from_int(0), Fx::from_int(0)));
    ch.add_key(AnimationKey::new(Fx::from_int(10), Fx::from_int(4)));
    child.set_animation_channel(NodeChannelTarget::TranslationY, ch);
    let child_idx = scene.add_child_to(root_idx, child);

    scene.update_transforms(Fx::from_int(5));
    let root_t = *scene.nodes[root_idx].get_transform_matrix();
    let child_t = *scene.nodes[child_idx].get_transform_matrix();
    // the animated child translation (0, 2, 0) rides on the parent's; the
    // unrotated basis is identity up to the sine approximation's few quanta
    assert_eq!(child_t.translation.x, root_t.translation.x);
    let lifted = root_t.translation.y.add(Fx::from_int(2));
    assert!(
        (child_t.translation.y.raw - lifted.raw).abs() <= 16,
        "lifted y {} vs {}",
        child_t.translation.y.raw,
        lifted.raw
    );
    assert_eq!(child_t.translation.z, root_t.translation.z);
}

#[test]
fn quantization_maps_clamped_channels_to_display_bytes() {
    let mut c = Color::new(Fx { raw: 0 }, Fx::from_int(1), Fx::from_ratio(1, 4));
    c.clamp();
    let (r, g, b) = c.to_rgb8();
    assert_eq!(r, 0);
    assert_eq!(g, 255);
    // sqrt(0.25) = 0.5, then floor(0.5 * 255.999) = 127
    assert_eq!(b, 127);
}

#[test]
fn sampler_streams_are_deterministic() {
    let mut a = Sampler::Pseudo(123);
    let mut b = Sampler::Pseudo(123);
    for _ in 0..8 {
        assert_eq!(a.next_u64(), b.next_u64());
    }
    let mut f = Sampler::Fixed(9);
    assert_eq!(f.next_u64(), 9);
    assert_eq!(f.next_u64(), 9);
    let u = f.next_unit();
    assert!(0 <= u.raw && u.raw < 65536);
    let v = f.next_symmetric();
    assert!(-65536 <= v.raw && v.raw <= 65536);
}

#[test]
fn random_unit_directions_have_unit_length() {
    let mut s = Sampler::Pseudo(2024);
    for _ in 0..32 {
        let v = Vector3::random_in_unit_sphere(&mut s);
        let len = v.length();
        assert!((len.raw - 65536).abs() <= 192, "length {}", len.raw);
    }
}

#[test]
fn camera_viewport_follows_field_of_view() {
    let cam = default_camera();
    // height = 2 tan(30 deg) = 1.1547
    assert!((cam.height.raw - 75674).abs() <= 256, "height {}", cam.height.raw);
    assert_eq!(cam.width.raw, cam.aspect_ratio.mul(cam.height).raw);
    let mut cam2 = cam;
    cam2.set_vertical_field_of_view(Fx::from_int(90));
    // height = 2 tan(45 deg) = 2
    assert!((cam2.height.raw - 131072).abs() <= 512, "height {}", cam2.height.raw);
}
