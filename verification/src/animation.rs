//! Keyframe animation channels.
//!
//! A channel is a time-ordered sequence of keys; evaluating it at a frame
//! clamps outside the key range, returns a key's own value on an exact time
//! match, and otherwise interpolates the bracketing pair with the earlier
//! key's interpolation rule (constant, linear, or cubic Bezier by repeated
//! linear blending).

use vstd::prelude::*;

use crate::fixed::{fx_wf, Fx};
use crate::vector2::{lemma_lerp_one, lemma_lerp_zero, v2_half_range, v2_wf, Vector2};
use crate::vector3::Vector3;

verus! {

/// Keyframe interpolation rules. A Bezier key carries its incoming and
/// outgoing tangent control points.
#[derive(Clone, Copy, Debug, PartialEq, Eq, Structural)]
pub enum Interpolation {
    Constant,
    Linear,
    Bezier { control_in: Vector2, control_out: Vector2 },
}

pub open spec fn interp_wf(i: Interpolation) -> bool {
    match i {
        Interpolation::Bezier { control_in, control_out } => v2_wf(control_in) && v2_wf(
            control_out,
        ),
        _ => true,
    }
}

/// One control point of a channel: a (time, value) position plus the rule for
/// the segment that starts at this key.
#[derive(Clone, Copy, Debug, PartialEq, Eq, Structural)]
pub struct AnimationKey {
    pub point: Vector2,
    pub interpolation: Interpolation,
}

pub open spec fn key_wf(k: AnimationKey) -> bool {
    v2_wf(k.point) && interp_wf(k.interpolation)
}

impl AnimationKey {
    /// A key at time `x` with value `y`, linear by default.
    pub fn new(x: Fx, y: Fx) -> (r: AnimationKey)
        ensures
            r.point == (Vector2 { x, y }),
            r.interpolation == Interpolation::Linear,
    {
        AnimationKey { point: Vector2 { x, y }, interpolation: Interpolation::Linear }
    }

    pub fn change_interpolation(&mut self, interp: Interpolation)
        ensures
            final(self).point == old(self).point,
            final(self).interpolation == interp,
    {
        self.interpolation = interp;
    }
}

/// An ordered sequence of keys driving one scalar attribute.
#[derive(Clone, Debug)]
pub struct AnimationChannel {
    pub keys: Vec<AnimationKey>,
}

/// Keys are well formed and their times never decrease.
pub open spec fn channel_wf(c: AnimationChannel) -> bool {
    &&& forall|i: int| 0 <= i < c.keys@.len() ==> key_wf(#[trigger] c.keys@[i])
    &&& forall|i: int, j: int|
        0 <= i <= j < c.keys@.len() ==> c.keys@[i].point.x.raw <= c.keys@[j].point.x.raw
}

/// The least index at or after `i` whose key time is not below `f`, or the
/// length if every remaining key's time is below `f`.
pub open spec fn spec_scan(keys: Seq<AnimationKey>, f: Fx, i: int) -> int
    decreases keys.len() - i,
{
    if i < 0 || i >= keys.len() {
        keys.len() as int
    } else if keys[i].point.x.raw >= f.raw {
        i
    } else {
        spec_scan(keys, f, i + 1)
    }
}

proof fn lemma_scan_from(keys: Seq<AnimationKey>, f: Fx, m: int, i: int)
    requires
        0 <= m <= i <= keys.len(),
        forall|k: int| m <= k < i ==> keys[k].point.x.raw < f.raw,
        i < keys.len() ==> keys[i].point.x.raw >= f.raw,
    ensures
        spec_scan(keys, f, m) == i,
    decreases i - m,
{
    if m < i {
        lemma_scan_from(keys, f, m + 1, i);
    }
}

/// The interpolated value of the segment from `first` to `last` at the
/// normalized position `t`, following `first`'s rule. A non-Bezier `last`
/// next to a Bezier `first` contributes a zero control point: the documented
/// compatibility fallback for mixed-mode neighbors.
pub open spec fn spec_segment_value(first: AnimationKey, last: AnimationKey, t: Fx) -> Fx {
    match first.interpolation {
        Interpolation::Constant => first.point.y,
        Interpolation::Linear => Vector2::spec_lerp(first.point, last.point, t).y,
        Interpolation::Bezier { control_in: _, control_out } => {
            let p0 = first.point;
            let p1 = control_out;
            let p2 = match last.interpolation {
                Interpolation::Bezier { control_in, control_out: _ } => control_in,
                _ => Vector2 { x: Fx { raw: 0 }, y: Fx { raw: 0 } },
            };
            let p3 = last.point;
            let a = Vector2::spec_lerp(p0, p1, t);
            let b = Vector2::spec_lerp(p1, p2, t);
            let c = Vector2::spec_lerp(p2, p3, t);
            let d = Vector2::spec_lerp(a, b, t);
            let e = Vector2::spec_lerp(b, c, t);
            Vector2::spec_lerp(d, e, t).y
        },
    }
}

/// What evaluating a channel at frame `f` returns: the default on an empty
/// channel, the boundary key's value outside the key range, a key's own value
/// on an exact time match, and the bracketing segment's interpolation
/// otherwise.
pub open spec fn spec_value_at(c: AnimationChannel, f: Fx, default: Fx) -> Fx {
    let keys = c.keys@;
    let j = spec_scan(keys, f, 0);
    if keys.len() == 0 {
        default
    } else if j == keys.len() {
        keys[keys.len() - 1].point.y
    } else if keys[j].point.x.raw == f.raw {
        keys[j].point.y
    } else if j == 0 {
        keys[0].point.y
    } else {
        let first = keys[j - 1];
        let last = keys[j];
        let t = f.spec_sub(first.point.x).spec_div(last.point.x.spec_sub(first.point.x));
        spec_segment_value(first, last, t)
    }
}

/// Evaluate `c`, taken from an optional slot, at frame `f`.
pub open spec fn spec_axis_value(c: Option<AnimationChannel>, f: Fx, default: Fx) -> Fx {
    match c {
        Some(ch) => spec_value_at(ch, f, default),
        None => default,
    }
}

/// The owned view of an optional channel reference.
pub open spec fn opt_channel(c: Option<&AnimationChannel>) -> Option<AnimationChannel> {
    match c {
        Some(ch) => Some(*ch),
        None => None,
    }
}

pub open spec fn opt_channel_wf(c: Option<AnimationChannel>) -> bool {
    match c {
        Some(ch) => channel_wf(ch),
        None => true,
    }
}

impl AnimationChannel {
    pub fn new() -> (r: AnimationChannel)
        ensures
            r.keys@.len() == 0,
            channel_wf(r),
    {
        AnimationChannel { keys: Vec::new() }
    }

    /// Append a key; the channel stays sorted because new keys may not predate
    /// the last one (insertion order is assumed sorted, never re-sorted).
    pub fn add_key(&mut self, k: AnimationKey)
        requires
            channel_wf(*old(self)),
            key_wf(k),
            old(self).keys@.len() > 0 ==> old(self).keys@[old(self).keys@.len()
                - 1].point.x.raw <= k.point.x.raw,
        ensures
            final(self).keys@ == old(self).keys@.push(k),
            channel_wf(*final(self)),
    {
        self.keys.push(k);
    }

    /// Evaluate the channel at frame `f`, falling back to `default` when the
    /// channel has no keys.
    pub fn get_value_at_frame(&self, f: Fx, default: Fx) -> (r: Fx)
        requires
            channel_wf(*self),
            fx_wf(f),
            fx_wf(default),
        ensures
            r == spec_value_at(*self, f, default),
            fx_wf(r),
    {
        let ghost keys = self.keys@;
        let n = self.keys.len();
        if n == 0 {
            return default;
        }
        let mut i: usize = 0;
        while i < n && self.keys[i].point.x.raw < f.raw
            invariant
                0 <= i <= n,
                n == keys.len(),
                keys == self.keys@,
                forall|k: int| 0 <= k < i ==> keys[k].point.x.raw < f.raw,
            decreases n - i,
        {
            i += 1;
        }
        proof {
            lemma_scan_from(keys, f, 0, i as int);
        }
        if i == n {
            return self.keys[n - 1].point.y;
        }
        let key_i = self.keys[i];
        if key_i.point.x.raw == f.raw {
            return key_i.point.y;
        }
        if i == 0 {
            return key_i.point.y;
        }
        let first = self.keys[i - 1];
        let last = key_i;
        let t = f.sub(first.point.x).div(last.point.x.sub(first.point.x));
        match first.interpolation {
            Interpolation::Constant => first.point.y,
            Interpolation::Linear => Vector2::lerp(first.point, last.point, t).y,
            Interpolation::Bezier { control_in: _, control_out } => {
                let p0 = first.point;
                let p1 = control_out;
                let p2 = match last.interpolation {
                    Interpolation::Bezier { control_in, control_out: _ } => control_in,
                    _ => Vector2 { x: Fx { raw: 0 }, y: Fx { raw: 0 } },
                };
                let p3 = last.point;
                let a = Vector2::lerp(p0, p1, t);
                let b = Vector2::lerp(p1, p2, t);
                let c = Vector2::lerp(p2, p3, t);
                let d = Vector2::lerp(a, b, t);
                let e = Vector2::lerp(b, c, t);
                Vector2::lerp(d, e, t).y
            },
        }
    }

    /// Evaluate three optional channels against the matching components of
    /// `default`, composing a vector for frame `f`.
    pub fn get_vector_by_frame(
        c1: Option<&AnimationChannel>,
        c2: Option<&AnimationChannel>,
        c3: Option<&AnimationChannel>,
        default: &Vector3,
        f: Fx,
    ) -> (r: Vector3)
        requires
            opt_channel_wf(opt_channel(c1)),
            opt_channel_wf(opt_channel(c2)),
            opt_channel_wf(opt_channel(c3)),
            crate::vector3::v3_wf(*default),
            fx_wf(f),
        ensures
            r.x == spec_axis_value(opt_channel(c1), f, default.x),
            r.y == spec_axis_value(opt_channel(c2), f, default.y),
            r.z == spec_axis_value(opt_channel(c3), f, default.z),
            crate::vector3::v3_wf(r),
    {
        let x = match c1 {
            Some(ch) => ch.get_value_at_frame(f, default.x),
            None => default.x,
        };
        let y = match c2 {
            Some(ch) => ch.get_value_at_frame(f, default.y),
            None => default.y,
        };
        let z = match c3 {
            Some(ch) => ch.get_value_at_frame(f, default.z),
            None => default.z,
        };
        Vector3 { x, y, z }
    }
}

/// Whether every point a key contributes to a segment lies within half the
/// representable band.
pub open spec fn key_half_range(k: AnimationKey) -> bool {
    &&& v2_half_range(k.point)
    &&& match k.interpolation {
        Interpolation::Bezier { control_in, control_out } => v2_half_range(control_in)
            && v2_half_range(control_out),
        _ => true,
    }
}

/// A Bezier segment's curve passes through its keys: the repeated linear
/// blending evaluated at the normalized positions 0 and 1 returns the
/// earlier and the later key's own value exactly, provided every control
/// value lies within half the representable band (outside it a blend could
/// saturate). The evaluator itself never reaches these positions — an exact
/// time match returns the key's value before any interpolation — so this
/// states the curve's endpoint property in its own right.
pub proof fn lemma_bezier_segment_endpoints(first: AnimationKey, last: AnimationKey)
    requires
        (first.interpolation is Bezier),
        key_half_range(first),
        key_half_range(last),
    ensures
        spec_segment_value(first, last, Fx { raw: 0 }) == first.point.y,
        spec_segment_value(first, last, Fx { raw: 65536 }) == last.point.y,
{
    match first.interpolation {
        Interpolation::Bezier { control_in: _, control_out } => {
            let p0 = first.point;
            let p1 = control_out;
            let p2 = match last.interpolation {
                Interpolation::Bezier { control_in, control_out: _ } => control_in,
                _ => Vector2 { x: Fx { raw: 0 }, y: Fx { raw: 0 } },
            };
            let p3 = last.point;
            lemma_lerp_zero(p0, p1);
            lemma_lerp_zero(p1, p2);
            lemma_lerp_zero(p2, p3);
            lemma_lerp_one(p0, p1);
            lemma_lerp_one(p1, p2);
            lemma_lerp_one(p2, p3);
        },
        _ => {},
    }
}

/// At a key's exact time the channel returns that key's value, for every
/// interpolation mode: evaluation never interpolates on an exact match, so a
/// Bezier segment's endpoints are the key values themselves.
pub proof fn lemma_value_at_key_time(c: AnimationChannel, i: int, default: Fx)
    requires
        channel_wf(c),
        0 <= i < c.keys@.len(),
        forall|p: int, q: int|
            0 <= p < q < c.keys@.len() ==> c.keys@[p].point.x.raw < c.keys@[q].point.x.raw,
    ensures
        spec_value_at(c, c.keys@[i].point.x, default) == c.keys@[i].point.y,
{
    let keys = c.keys@;
    let f = keys[i].point.x;
    lemma_scan_from(keys, f, 0, i);
}

} // verus!
