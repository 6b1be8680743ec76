use raybow::animation::{AnimationChannel, AnimationKey, Interpolation};
use raybow::fixed::Fx;
use raybow::vector2::Vector2;
use raybow::vector3::Vector3;
use raybow::color::Color;
use raybow::material::Material;
use raybow::sphere::{ChannelTarget, Sphere};

fn channel(points: &[(i64, i64)]) -> AnimationChannel {
    let mut ch = AnimationChannel::new();
    for &(t, num) in points {
        ch.add_key(AnimationKey::new(Fx::from_int(t), Fx::from_ratio(num, 100)));
    }
    ch
}

#[test]
fn empty_channel_returns_default() {
    let ch = AnimationChannel::new();
    let d = Fx::from_ratio(37, 10);
    assert_eq!(ch.get_value_at_frame(Fx::from_int(4), d), d);
}

#[test]
fn exact_key_time_returns_key_value_linear() {
    let ch = channel(&[(0, 10), (10, 100)]);
    assert_eq!(
        ch.get_value_at_frame(Fx::from_int(10), Fx::from_int(0)),
        Fx::from_ratio(100, 100)
    );
    assert_eq!(
        ch.get_value_at_frame(Fx::from_int(0), Fx::from_int(0)),
        Fx::from_ratio(10, 100)
    );
}

#[test]
fn exact_key_time_returns_key_value_constant() {
    let mut ch = AnimationChannel::new();
    let mut k1 = AnimationKey::new(Fx::from_int(2), Fx::from_int(5));
    k1.change_interpolation(Interpolation::Constant);
    let mut k2 = AnimationKey::new(Fx::from_int(6), Fx::from_int(9));
    k2.change_interpolation(Interpolation::Constant);
    ch.add_key(k1);
    ch.add_key(k2);
    assert_eq!(ch.get_value_at_frame(Fx::from_int(2), Fx::from_int(0)), Fx::from_int(5));
    assert_eq!(ch.get_value_at_frame(Fx::from_int(6), Fx::from_int(0)), Fx::from_int(9));
    // between keys a constant segment holds the earlier key's value
    assert_eq!(ch.get_value_at_frame(Fx::from_int(4), Fx::from_int(0)), Fx::from_int(5));
}

#[test]
fn exact_key_time_returns_key_value_bezier() {
    let mut ch = AnimationChannel::new();
    let mut k1 = AnimationKey::new(Fx::from_int(0), Fx::from_int(0));
    k1.change_interpolation(Interpolation::Bezier {
        control_in: Vector2::new(Fx::from_int(0), Fx::from_int(0)),
        control_out: Vector2::new(Fx::from_int(3), Fx::from_ratio(75, 100)),
    });
    let mut k2 = AnimationKey::new(Fx::from_int(12), Fx::from_int(1));
    k2.change_interpolation(Interpolation::Bezier {
        control_in: Vector2::new(Fx::from_int(6), Fx::from_int(1)),
        control_out: Vector2::new(Fx::from_int(18), Fx::from_int(1)),
    });
    ch.add_key(k1);
    ch.add_key(k2);
    // the curve's endpoints are the key values themselves
    assert_eq!(ch.get_value_at_frame(Fx::from_int(0), Fx::from_int(7)), Fx::from_int(0));
    assert_eq!(ch.get_value_at_frame(Fx::from_int(12), Fx::from_int(7)), Fx::from_int(1));
}

#[test]
fn clamps_before_first_and_after_last_key() {
    let ch = channel(&[(2, 20), (8, 80)]);
    assert_eq!(
        ch.get_value_at_frame(Fx::from_int(-5), Fx::from_int(0)),
        Fx::from_ratio(20, 100)
    );
    assert_eq!(
        ch.get_value_at_frame(Fx::from_int(99), Fx::from_int(0)),
        Fx::from_ratio(80, 100)
    );
}

#[test]
fn linear_interpolation_midpoint() {
    // keys (0, 0.1) and (10, 1.0), linear: frame 5 must yield 0.55
    let mut ch = AnimationChannel::new();
    ch.add_key(AnimationKey::new(Fx::from_int(0), Fx::from_ratio(1, 10)));
    ch.add_key(AnimationKey::new(Fx::from_int(10), Fx::from_int(1)));
    assert_eq!(
        ch.get_value_at_frame(Fx::from_int(5), Fx::from_int(0)),
        Fx::from_ratio(55, 100)
    );
}

#[test]
fn animated_radius_at_frame_five() {
    let mut ch = AnimationChannel::new();
    ch.add_key(AnimationKey::new(Fx::from_int(0), Fx::from_ratio(1, 10)));
    ch.add_key(AnimationKey::new(Fx::from_int(10), Fx::from_int(1)));
    let mut sphere = Sphere::new(
        Vector3::new(Fx::from_int(0), Fx::from_int(0), Fx::from_int(-1)),
        Fx::from_ratio(1, 4),
        Material::Diffuse { albedo: Color::new(Fx::from_int(1), Fx::from_int(1), Fx::from_int(1)) },
    );
    sphere.add_animation_channel(ChannelTarget::Radius, ch);
    assert_eq!(sphere.get_radius_by_frame(Fx::from_int(5)), Fx::from_ratio(55, 100));
    // without a channel the base radius is returned
    assert_eq!(sphere.get_center_by_frame(Fx::from_int(5)).z, Fx::from_int(-1));
}

#[test]
fn vector_by_frame_uses_defaults_for_missing_axes() {
    let ch = channel(&[(0, 0), (10, 100)]);
    let default = Vector3::new(Fx::from_int(7), Fx::from_int(8), Fx::from_int(9));
    let v = AnimationChannel::get_vector_by_frame(
        Some(&ch),
        None,
        None,
        &default,
        Fx::from_int(5),
    );
    assert_eq!(v.x, Fx::from_ratio(50, 100));
    assert_eq!(v.y, Fx::from_int(8));
    assert_eq!(v.z, Fx::from_int(9));
}
