//! Two-component points, used as animation key positions and Bezier control
//! points: `x` is a time coordinate, `y` a value coordinate.

use vstd::prelude::*;

use crate::fixed::{fx_wf, lemma_mul_one, Fx, FX_MAX_RAW};

verus! {

#[derive(Clone, Copy, Debug, PartialEq, Eq, Structural)]
pub struct Vector2 {
    pub x: Fx,
    pub y: Fx,
}

pub open spec fn v2_wf(v: Vector2) -> bool {
    fx_wf(v.x) && fx_wf(v.y)
}

/// Both coordinates within half the representable band: differences of two
/// such points never saturate.
pub open spec fn v2_half_range(v: Vector2) -> bool {
    &&& -FX_MAX_RAW / 2 <= v.x.raw <= FX_MAX_RAW / 2
    &&& -FX_MAX_RAW / 2 <= v.y.raw <= FX_MAX_RAW / 2
}

impl Vector2 {
    pub fn new(x: Fx, y: Fx) -> (r: Vector2)
        ensures
            r == (Vector2 { x, y }),
    {
        Vector2 { x, y }
    }

    /// Componentwise blend `a - (a - b)·t`, the interpolation primitive the
    /// animation evaluator is built from.
    pub open spec fn spec_lerp(a: Vector2, b: Vector2, t: Fx) -> Vector2 {
        Vector2 {
            x: a.x.spec_sub(a.x.spec_sub(b.x).spec_mul(t)),
            y: a.y.spec_sub(a.y.spec_sub(b.y).spec_mul(t)),
        }
    }

    pub fn lerp(a: Vector2, b: Vector2, t: Fx) -> (r: Vector2)
        requires
            v2_wf(a),
            v2_wf(b),
            fx_wf(t),
        ensures
            r == Vector2::spec_lerp(a, b, t),
            v2_wf(r),
    {
        Vector2 {
            x: a.x.sub(a.x.sub(b.x).mul(t)),
            y: a.y.sub(a.y.sub(b.y).mul(t)),
        }
    }
}

/// Blending at position 0 returns the first point exactly: the difference is
/// multiplied by zero, which is exact whatever the points are.
pub proof fn lemma_lerp_zero(a: Vector2, b: Vector2)
    requires
        v2_wf(a),
    ensures
        Vector2::spec_lerp(a, b, Fx { raw: 0 }) == a,
{
    let dx = a.x.spec_sub(b.x);
    let dy = a.y.spec_sub(b.y);
    assert(dx.raw as int * 0 == 0) by (nonlinear_arith);
    assert(dy.raw as int * 0 == 0) by (nonlinear_arith);
}

/// Blending at position 1 returns the second point exactly, provided the
/// points lie within half the representable band, so that neither their
/// difference nor its recombination saturates.
pub proof fn lemma_lerp_one(a: Vector2, b: Vector2)
    requires
        v2_half_range(a),
        v2_half_range(b),
    ensures
        Vector2::spec_lerp(a, b, Fx { raw: 65536 }) == b,
{
    let dx = a.x.spec_sub(b.x);
    let dy = a.y.spec_sub(b.y);
    lemma_mul_one(dx);
    lemma_mul_one(dy);
}

} // verus!
