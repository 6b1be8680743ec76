//! Fixed-point trigonometry.
//!
//! Angles are reduced into `[-π/2, π/2]` by periodicity and the sine
//! symmetry `sin(π - x) = sin(x)`, then evaluated with the degree-7 Taylor
//! polynomial; the cosine is the sine shifted by a quarter turn and the
//! tangent their quotient. The specs pin the exact fixed-point value of that
//! approximation.

use vstd::prelude::*;

use crate::fixed::{abs_int, fx_wf, Fx};

verus! {

/// π in raw units.
pub const PI_RAW: i64 = 205887;

/// 2π in raw units.
pub const TWO_PI_RAW: i64 = 411775;

/// π/2 in raw units.
pub const HALF_PI_RAW: i64 = 102944;

/// `x` shifted by whole turns into `(-π, π]` (mirrored for negative `x`).
pub open spec fn spec_reduce_rad(x: Fx) -> Fx {
    let m = abs_int(x.raw as int) % (TWO_PI_RAW as int);
    let c = if m > PI_RAW as int {
        m - TWO_PI_RAW as int
    } else {
        m
    };
    Fx { raw: (if x.raw < 0 { -c } else { c }) as i64 }
}

fn reduce_rad(x: Fx) -> (r: Fx)
    requires
        fx_wf(x),
    ensures
        r == spec_reduce_rad(x),
        -PI_RAW <= r.raw <= PI_RAW,
        fx_wf(r),
{
    let mag: u64 = if x.raw < 0 { (-x.raw) as u64 } else { x.raw as u64 };
    let m: u64 = mag % (TWO_PI_RAW as u64);
    let c: i64 = if m > PI_RAW as u64 { m as i64 - TWO_PI_RAW } else { m as i64 };
    if x.raw < 0 { Fx { raw: -c } } else { Fx { raw: c } }
}

/// The folding of a reduced angle into `[-π/2, π/2]` by `sin(π - x) = sin(x)`.
pub open spec fn spec_fold_half(c: Fx) -> Fx {
    if c.raw > HALF_PI_RAW {
        Fx { raw: (PI_RAW - c.raw) as i64 }
    } else if c.raw < -HALF_PI_RAW {
        Fx { raw: (-PI_RAW - c.raw) as i64 }
    } else {
        c
    }
}

/// The degree-9 Taylor polynomial of the sine.
pub open spec fn spec_sin_poly(x: Fx) -> Fx {
    let x2 = x.spec_mul(x);
    let x3 = x2.spec_mul(x);
    let x5 = x3.spec_mul(x2);
    let x7 = x5.spec_mul(x2);
    let x9 = x7.spec_mul(x2);
    x.spec_sub(x3.spec_div(Fx { raw: 393216 })).spec_add(
        x5.spec_div(Fx { raw: 7864320 }),
    ).spec_sub(x7.spec_div(Fx { raw: 330301440 })).spec_add(
        x9.spec_div(Fx { raw: 23781703680 }),
    )
}

/// The sine of `x` (radians).
pub open spec fn spec_sin(x: Fx) -> Fx {
    spec_sin_poly(spec_fold_half(spec_reduce_rad(x)))
}

pub fn fx_sin(x: Fx) -> (r: Fx)
    requires
        fx_wf(x),
    ensures
        r == spec_sin(x),
        fx_wf(r),
{
    let c = reduce_rad(x);
    let folded = if c.raw > HALF_PI_RAW {
        Fx { raw: PI_RAW - c.raw }
    } else if c.raw < -HALF_PI_RAW {
        Fx { raw: -PI_RAW - c.raw }
    } else {
        c
    };
    let x2 = folded.mul(folded);
    let x3 = x2.mul(folded);
    let x5 = x3.mul(x2);
    let x7 = x5.mul(x2);
    let x9 = x7.mul(x2);
    folded.sub(x3.div(Fx { raw: 393216 })).add(x5.div(Fx { raw: 7864320 })).sub(
        x7.div(Fx { raw: 330301440 }),
    ).add(x9.div(Fx { raw: 23781703680 }))
}

/// The cosine of `x`: the sine shifted by a quarter turn.
pub open spec fn spec_cos(x: Fx) -> Fx {
    spec_sin(x.spec_add(Fx { raw: HALF_PI_RAW as i64 }))
}

pub fn fx_cos(x: Fx) -> (r: Fx)
    requires
        fx_wf(x),
    ensures
        r == spec_cos(x),
        fx_wf(r),
{
    fx_sin(x.add(Fx { raw: HALF_PI_RAW }))
}

/// The tangent of `x`: sine over cosine.
pub open spec fn spec_tan(x: Fx) -> Fx {
    spec_sin(x).spec_div(spec_cos(x))
}

pub fn fx_tan(x: Fx) -> (r: Fx)
    requires
        fx_wf(x),
    ensures
        r == spec_tan(x),
        fx_wf(r),
{
    fx_sin(x).div(fx_cos(x))
}

/// Degrees to radians: `deg · π / 180`.
pub open spec fn spec_deg_to_rad(deg: Fx) -> Fx {
    deg.spec_mul(Fx { raw: PI_RAW as i64 }).spec_div(Fx { raw: 11796480 })
}

pub fn deg_to_rad(deg: Fx) -> (r: Fx)
    requires
        fx_wf(deg),
    ensures
        r == spec_deg_to_rad(deg),
        fx_wf(r),
{
    deg.mul(Fx { raw: PI_RAW }).div(Fx { raw: 11796480 })
}

} // verus!
