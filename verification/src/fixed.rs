//! Fixed-point scalars.
//!
//! A scalar is stored as an `i64` numerator over the constant denominator
//! [`FX_SCALE`]; the value of `Fx { raw }` is `raw / FX_SCALE`. All operations
//! saturate at magnitude [`FX_MAX_RAW`] (raw units), so every operation is
//! total and exactly specified: no overflow, no panics. Division by zero
//! saturates toward the sign of the numerator (the renderer's analogue of the
//! silent non-finite propagation a floating-point core would exhibit).

use vstd::prelude::*;

verus! {

/// Raw units per 1.0: scalars have this power-of-two denominator.
pub const FX_SCALE: i64 = 65536;

/// Largest raw magnitude a scalar may hold; arithmetic saturates here (2^46).
pub const FX_MAX_RAW: i64 = 0x4000_0000_0000;

/// A real-valued scalar, stored as `raw` / [`FX_SCALE`].
#[derive(Clone, Copy, Debug, PartialEq, Eq, Structural)]
pub struct Fx {
    pub raw: i64,
}

/// Well-formed scalars keep their raw magnitude within [`FX_MAX_RAW`].
pub open spec fn fx_wf(a: Fx) -> bool {
    -FX_MAX_RAW <= a.raw <= FX_MAX_RAW
}

pub open spec fn abs_int(x: int) -> int {
    if x < 0 { -x } else { x }
}

/// Clamp a raw value into the representable band.
pub open spec fn fx_sat(v: int) -> int {
    if v > FX_MAX_RAW as int {
        FX_MAX_RAW as int
    } else if v < -(FX_MAX_RAW as int) {
        -(FX_MAX_RAW as int)
    } else {
        v
    }
}

/// Quotient of `x` by nonzero `d`, rounded toward zero.
pub open spec fn tdiv(x: int, d: int) -> int {
    let q = abs_int(x) / abs_int(d);
    if (x < 0) != (d < 0) { -q } else { q }
}

/// Integer square root, i.e. the floor of the real square root.
pub open spec fn sqrt_floor(x: int) -> int
    decreases x,
{
    if x < 1 {
        0
    } else {
        let r = sqrt_floor(x - 1);
        if (r + 1) * (r + 1) <= x { r + 1 } else { r }
    }
}

pub proof fn lemma_sqrt_floor(x: int)
    requires
        x >= 0,
    ensures
        sqrt_floor(x) >= 0,
        sqrt_floor(x) * sqrt_floor(x) <= x,
        x < (sqrt_floor(x) + 1) * (sqrt_floor(x) + 1),
    decreases x,
{
    if x >= 1 {
        lemma_sqrt_floor(x - 1);
        let r = sqrt_floor(x - 1);
        if (r + 1) * (r + 1) <= x {
            assert((r + 2) * (r + 2) > (r + 1) * (r + 1)) by (nonlinear_arith)
                requires r >= 0;
        }
    }
}

pub proof fn lemma_sqrt_unique(x: int, r: int)
    requires
        x >= 0,
        r >= 0,
        r * r <= x,
        x < (r + 1) * (r + 1),
    ensures
        r == sqrt_floor(x),
{
    lemma_sqrt_floor(x);
    let s = sqrt_floor(x);
    if r < s {
        assert((r + 1) * (r + 1) <= s * s) by (nonlinear_arith)
            requires 0 <= r, r < s;
    }
    if s < r {
        assert((s + 1) * (s + 1) <= r * r) by (nonlinear_arith)
            requires 0 <= s, s < r;
    }
}

/// Multiplying by 1 is exact: no rounding and no saturation.
pub proof fn lemma_mul_one(a: Fx)
    requires
        fx_wf(a),
    ensures
        a.spec_mul(Fx { raw: FX_SCALE as i64 }) == a,
{
    let m = abs_int(a.raw as int);
    assert(abs_int(a.raw as int * 65536) == m * 65536) by (nonlinear_arith)
        requires
            m == abs_int(a.raw as int);
    vstd::arithmetic::div_mod::lemma_div_multiples_vanish(m, 65536);
    assert(m * 65536 == 65536 * m) by (nonlinear_arith);
    assert((a.raw as int * 65536 < 0) <==> a.raw < 0) by (nonlinear_arith);
}

/// Division by a positive scalar is monotone in the numerator.
pub proof fn lemma_div_monotone_num(a1: Fx, a2: Fx, d: Fx)
    requires
        a1.raw <= a2.raw,
        d.raw > 0,
    ensures
        a1.spec_div(d).raw <= a2.spec_div(d).raw,
{
    let x1 = a1.raw as int * (FX_SCALE as int);
    let x2 = a2.raw as int * (FX_SCALE as int);
    let dd = d.raw as int;
    assert(x1 <= x2);
    if x1 >= 0 {
        vstd::arithmetic::div_mod::lemma_div_is_ordered(x1, x2, dd);
    } else if x2 < 0 {
        vstd::arithmetic::div_mod::lemma_div_is_ordered(-x2, -x1, dd);
    } else {
        assert(abs_int(x1) / dd >= 0) by {
            vstd::arithmetic::div_mod::lemma_div_is_ordered(0, abs_int(x1), dd);
        }
        assert(abs_int(x2) / dd >= 0) by {
            vstd::arithmetic::div_mod::lemma_div_is_ordered(0, abs_int(x2), dd);
        }
    }
}

/// Clamp a raw `i64` into the representable band.
fn clamp_raw(v: i64) -> (r: i64)
    ensures
        r as int == fx_sat(v as int),
{
    if v > FX_MAX_RAW {
        FX_MAX_RAW
    } else if v < -FX_MAX_RAW {
        -FX_MAX_RAW
    } else {
        v
    }
}

/// Magnitude of a well-formed raw value.
fn abs_raw(v: i64) -> (r: u64)
    requires
        -FX_MAX_RAW <= v <= FX_MAX_RAW,
    ensures
        r as int == abs_int(v as int),
{
    if v < 0 { (-v) as u64 } else { v as u64 }
}

/// Binary-search integer square root of a raw value up to 2^62.
fn isqrt64(x: u64) -> (r: u64)
    requires
        x <= 0x4000_0000_0000_0000u64,
    ensures
        r as int == sqrt_floor(x as int),
{
    let mut lo: u64 = 0;
    let mut hi: u64 = 0x8000_0001u64;
    assert((0x8000_0001u64 as int) * (0x8000_0001u64 as int) > 0x4000_0000_0000_0000) by (nonlinear_arith);
    while lo + 1 < hi
        invariant
            lo < hi,
            hi <= 0x8000_0001u64,
            (lo as int) * (lo as int) <= x as int,
            (x as int) < (hi as int) * (hi as int),
        decreases hi - lo,
    {
        let mid = lo + (hi - lo) / 2;
        assert((mid as int) * (mid as int) <= 0x4000_0000_0000_0000) by (nonlinear_arith)
            requires mid <= 0x8000_0000u64;
        if mid * mid <= x {
            lo = mid;
        } else {
            hi = mid;
        }
    }
    proof {
        lemma_sqrt_unique(x as int, lo as int);
    }
    lo
}

impl Fx {
    /// The scalar 0.
    pub open spec fn spec_zero() -> Fx {
        Fx { raw: 0 }
    }

    pub fn zero() -> (r: Fx)
        ensures
            r == Fx::spec_zero(),
            fx_wf(r),
    {
        Fx { raw: 0 }
    }

    /// The scalar 1.
    pub open spec fn spec_one() -> Fx {
        Fx { raw: FX_SCALE as i64 }
    }

    pub fn one() -> (r: Fx)
        ensures
            r == Fx::spec_one(),
            fx_wf(r),
    {
        Fx { raw: FX_SCALE }
    }

    pub open spec fn spec_from_int(i: int) -> Fx {
        Fx { raw: fx_sat(i * FX_SCALE as int) as i64 }
    }

    /// The scalar with integer value `i`, saturated into range.
    pub fn from_int(i: i64) -> (r: Fx)
        ensures
            r == Fx::spec_from_int(i as int),
            fx_wf(r),
    {
        if i > 0x4000_0000_0000i64 / 65536 {
            assert(fx_sat(i as int * FX_SCALE as int) == FX_MAX_RAW as int) by (nonlinear_arith)
                requires i > 0x4000_0000_0000i64 / 65536;
            Fx { raw: FX_MAX_RAW }
        } else if i < -(0x4000_0000_0000i64 / 65536) {
            assert(fx_sat(i as int * FX_SCALE as int) == -(FX_MAX_RAW as int)) by (nonlinear_arith)
                requires i < -(0x4000_0000_0000i64 / 65536);
            Fx { raw: -FX_MAX_RAW }
        } else {
            assert(-(FX_MAX_RAW as int) <= i as int * FX_SCALE as int <= FX_MAX_RAW as int) by (nonlinear_arith)
                requires -(0x4000_0000_0000i64 / 65536) <= i as int <= 0x4000_0000_0000i64 / 65536;
            Fx { raw: i * FX_SCALE }
        }
    }

    /// The quotient `n / d` as a scalar.
    pub fn from_ratio(n: i64, d: i64) -> (r: Fx)
        requires
            -0x4000_0000i64 <= n <= 0x4000_0000i64,
            -0x4000_0000i64 <= d <= 0x4000_0000i64,
        ensures
            r == Fx::spec_from_int(n as int).spec_div(Fx::spec_from_int(d as int)),
            fx_wf(r),
    {
        let fn_ = Fx::from_int(n);
        let fd = Fx::from_int(d);
        fn_.div(fd)
    }

    pub open spec fn spec_add(self, o: Fx) -> Fx {
        Fx { raw: fx_sat(self.raw + o.raw) as i64 }
    }

    /// Saturating sum.
    pub fn add(self, o: Fx) -> (r: Fx)
        requires
            fx_wf(self),
            fx_wf(o),
        ensures
            r == self.spec_add(o),
            fx_wf(r),
    {
        Fx { raw: clamp_raw(self.raw + o.raw) }
    }

    pub open spec fn spec_sub(self, o: Fx) -> Fx {
        Fx { raw: fx_sat(self.raw - o.raw) as i64 }
    }

    /// Saturating difference.
    pub fn sub(self, o: Fx) -> (r: Fx)
        requires
            fx_wf(self),
            fx_wf(o),
        ensures
            r == self.spec_sub(o),
            fx_wf(r),
    {
        Fx { raw: clamp_raw(self.raw - o.raw) }
    }

    pub open spec fn spec_neg(self) -> Fx {
        Fx { raw: -self.raw as i64 }
    }

    pub fn neg(self) -> (r: Fx)
        requires
            fx_wf(self),
        ensures
            r == self.spec_neg(),
            fx_wf(r),
    {
        Fx { raw: -self.raw }
    }

    pub open spec fn spec_abs(self) -> Fx {
        Fx { raw: abs_int(self.raw as int) as i64 }
    }

    pub fn abs(self) -> (r: Fx)
        requires
            fx_wf(self),
        ensures
            r == self.spec_abs(),
            fx_wf(r),
    {
        if self.raw < 0 { Fx { raw: -self.raw } } else { self }
    }

    pub open spec fn spec_mul(self, o: Fx) -> Fx {
        Fx { raw: fx_sat(tdiv(self.raw * o.raw, FX_SCALE as int)) as i64 }
    }

    /// Saturating product, rounded toward zero.
    pub fn mul(self, o: Fx) -> (r: Fx)
        requires
            fx_wf(self),
            fx_wf(o),
        ensures
            r == self.spec_mul(o),
            fx_wf(r),
    {
        let neg = (self.raw < 0) != (o.raw < 0);
        let am = abs_raw(self.raw);
        let bm = abs_raw(o.raw);
        proof {
            assert((am as int) * (bm as int) <= 0x1000_0000_0000_0000_0000_0000) by (nonlinear_arith)
                requires
                    0 <= (am as int) <= 0x4000_0000_0000,
                    0 <= (bm as int) <= 0x4000_0000_0000;
        }
        let p: u128 = (am as u128) * (bm as u128);
        let q: u128 = p / 65536u128;
        proof {
            let a = self.raw as int;
            let b = o.raw as int;
            assert((am as int) * (bm as int) == abs_int(a * b)) by (nonlinear_arith)
                requires
                    am as int == abs_int(a),
                    bm as int == abs_int(b);
            if a != 0 && b != 0 {
                assert((a * b < 0) == ((a < 0) != (b < 0))) by (nonlinear_arith)
                    requires a != 0, b != 0;
            } else {
                assert(a * b == 0) by (nonlinear_arith)
                    requires a == 0 || b == 0;
            }
            assert(q as int == abs_int(a * b) / (FX_SCALE as int));
        }
        let qc: u64 = if q > 0x4000_0000_0000u128 { 0x4000_0000_0000u64 } else { q as u64 };
        let raw: i64 = if neg { -(qc as i64) } else { qc as i64 };
        proof {
            let a = self.raw as int;
            let b = o.raw as int;
            let t = tdiv(a * b, FX_SCALE as int);
            assert(t == if a * b < 0 { -(q as int) } else { q as int });
            assert(raw as int == fx_sat(t));
        }
        Fx { raw }
    }

    pub open spec fn spec_div(self, o: Fx) -> Fx {
        if o.raw == 0 {
            if self.raw > 0 {
                Fx { raw: FX_MAX_RAW as i64 }
            } else if self.raw < 0 {
                Fx { raw: (-FX_MAX_RAW) as i64 }
            } else {
                Fx { raw: 0 }
            }
        } else {
            Fx { raw: fx_sat(tdiv(self.raw * FX_SCALE as int, o.raw as int)) as i64 }
        }
    }

    /// Saturating quotient, rounded toward zero. A zero divisor saturates
    /// toward the numerator's sign.
    pub fn div(self, o: Fx) -> (r: Fx)
        requires
            fx_wf(self),
            fx_wf(o),
        ensures
            r == self.spec_div(o),
            fx_wf(r),
    {
        if o.raw == 0 {
            if self.raw > 0 {
                Fx { raw: FX_MAX_RAW }
            } else if self.raw < 0 {
                Fx { raw: -FX_MAX_RAW }
            } else {
                Fx { raw: 0 }
            }
        } else {
            let neg = (self.raw < 0) != (o.raw < 0);
            let am = abs_raw(self.raw);
            let bm = abs_raw(o.raw);
            let p: u128 = (am as u128) * 65536u128;
            let q: u128 = p / (bm as u128);
            proof {
                let a = self.raw as int;
                let b = o.raw as int;
                assert((am as int) * 65536 == abs_int(a * (FX_SCALE as int))) by (nonlinear_arith)
                    requires
                        am as int == abs_int(a);
                assert(q as int == abs_int(a * (FX_SCALE as int)) / abs_int(b));
            }
            let qc: u64 = if q > 0x4000_0000_0000u128 { 0x4000_0000_0000u64 } else { q as u64 };
            let raw: i64 = if neg { -(qc as i64) } else { qc as i64 };
            proof {
                let a = self.raw as int;
                let b = o.raw as int;
                let t = tdiv(a * (FX_SCALE as int), b);
                assert((a * 65536 < 0) <==> a < 0) by (nonlinear_arith);
                assert(t == if neg { -(q as int) } else { q as int });
                assert(raw as int == fx_sat(t));
            }
            Fx { raw }
        }
    }

    pub open spec fn spec_sqrt(self) -> Fx {
        if self.raw <= 0 {
            Fx { raw: 0 }
        } else {
            Fx { raw: sqrt_floor(self.raw * FX_SCALE as int) as i64 }
        }
    }

    /// Square root, rounded down; nonpositive inputs map to 0.
    pub fn sqrt(self) -> (r: Fx)
        requires
            fx_wf(self),
        ensures
            r == self.spec_sqrt(),
            fx_wf(r),
            r.raw >= 0,
    {
        if self.raw <= 0 {
            Fx { raw: 0 }
        } else {
            let x: u64 = (self.raw as u64) * 65536u64;
            let r = isqrt64(x);
            proof {
                lemma_sqrt_floor(x as int);
                assert(r as int <= 0x8000_0000) by (nonlinear_arith)
                    requires
                        (r as int) * (r as int) <= x as int,
                        (x as int) <= 0x4000_0000_0000_0000,
                        (r as int) >= 0;
            }
            Fx { raw: r as i64 }
        }
    }

    pub open spec fn spec_min(self, o: Fx) -> Fx {
        if self.raw <= o.raw { self } else { o }
    }

    pub fn min(self, o: Fx) -> (r: Fx)
        ensures
            r == self.spec_min(o),
    {
        if self.raw <= o.raw { self } else { o }
    }

    pub open spec fn spec_max(self, o: Fx) -> Fx {
        if self.raw >= o.raw { self } else { o }
    }

    pub fn max(self, o: Fx) -> (r: Fx)
        ensures
            r == self.spec_max(o),
    {
        if self.raw >= o.raw { self } else { o }
    }

    /// Strictly less than.
    pub fn lt(self, o: Fx) -> (r: bool)
        ensures
            r == (self.raw < o.raw),
    {
        self.raw < o.raw
    }

    /// Less than or equal.
    pub fn le(self, o: Fx) -> (r: bool)
        ensures
            r == (self.raw <= o.raw),
    {
        self.raw <= o.raw
    }
}

} // verus!
