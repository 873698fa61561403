//! Fixed-point arithmetic used for every quantity the engine measures.
//!
//! A value of `1000` stands for one whole unit (`FX_ONE`).  All stored
//! quantities are kept inside `[FX_MIN, FX_MAX]`; operations that could leave
//! that range clamp their result back into it, so no arithmetic here can
//! overflow an `i64`.

use vstd::prelude::*;

verus! {

/// One whole unit.
pub const FX_ONE: i64 = 1000;

/// Largest representable fixed-point quantity (one billion units).
pub const FX_MAX: i64 = 1_000_000_000_000;

/// Smallest representable fixed-point quantity.
pub const FX_MIN: i64 = -1_000_000_000_000;

/// A three-component fixed-point vector.
#[derive(Debug, Clone, Copy, PartialEq, Eq, Structural)]
pub struct Vec3 {
    pub x: i64,
    pub y: i64,
    pub z: i64,
}

/// A four-component fixed-point vector.
#[derive(Debug, Clone, Copy, PartialEq, Eq, Structural)]
pub struct Vec4 {
    pub x: i64,
    pub y: i64,
    pub z: i64,
    pub w: i64,
}

impl Vec3 {
    pub fn new(x: i64, y: i64, z: i64) -> (r: Vec3)
        ensures
            r == (Vec3 { x, y, z }),
    {
        Vec3 { x, y, z }
    }

    /// Every component lies inside the representable range.
    pub open spec fn in_range(self) -> bool {
        &&& FX_MIN <= self.x <= FX_MAX
        &&& FX_MIN <= self.y <= FX_MAX
        &&& FX_MIN <= self.z <= FX_MAX
    }

    /// Every component is at most `bound` in magnitude.
    pub open spec fn bounded(self, bound: int) -> bool {
        &&& -bound <= self.x <= bound
        &&& -bound <= self.y <= bound
        &&& -bound <= self.z <= bound
    }
}

impl Vec4 {
    pub fn new(x: i64, y: i64, z: i64, w: i64) -> (r: Vec4)
        ensures
            r == (Vec4 { x, y, z, w }),
    {
        Vec4 { x, y, z, w }
    }
}

/// The result of clamping `x` into the representable range.
pub open spec fn fx_clamped(x: int) -> int {
    if x > FX_MAX as int {
        FX_MAX as int
    } else if x < FX_MIN as int {
        FX_MIN as int
    } else {
        x
    }
}

/// Clamps a raw quantity into the representable range.
pub fn fx_clamp(x: i64) -> (r: i64)
    ensures
        r as int == fx_clamped(x as int),
        FX_MIN <= r <= FX_MAX,
{
    if x > FX_MAX {
        FX_MAX
    } else if x < FX_MIN {
        FX_MIN
    } else {
        x
    }
}

/// Division truncating toward zero, as the machine division does.
pub open spec fn divt(a: int, b: int) -> int
    recommends
        b > 0,
{
    if a >= 0 {
        a / b
    } else {
        -((-a) / b)
    }
}

/// Divides `a` by the positive divisor `b`, truncating toward zero.
pub fn div_trunc(a: i64, b: i64) -> (r: i64)
    requires
        b > 0,
        -0x4000_0000_0000_0000 <= a <= 0x4000_0000_0000_0000,
    ensures
        r as int == divt(a as int, b as int),
        a >= 0 ==> 0 <= r <= a,
        a < 0 ==> a <= r <= 0,
{
    if a >= 0 {
        a / b
    } else {
        -((-a) / b)
    }
}

/// The sum of two quantities, clamped back into the representable range.
pub fn fx_add(a: i64, b: i64) -> (r: i64)
    requires
        -0x2000_0000_0000_0000 <= a <= 0x2000_0000_0000_0000,
        -0x2000_0000_0000_0000 <= b <= 0x2000_0000_0000_0000,
    ensures
        r as int == fx_clamped(a + b),
        FX_MIN <= r <= FX_MAX,
{
    fx_clamp(a + b)
}

/// The difference of two quantities, clamped back into the representable
/// range.
pub fn fx_sub(a: i64, b: i64) -> (r: i64)
    requires
        -0x2000_0000_0000_0000 <= a <= 0x2000_0000_0000_0000,
        -0x2000_0000_0000_0000 <= b <= 0x2000_0000_0000_0000,
    ensures
        r as int == fx_clamped(a - b),
        FX_MIN <= r <= FX_MAX,
{
    fx_clamp(a - b)
}

/// The angle `a`, in thousandths of a degree, normalized into
/// `[0, 360000)`.
pub open spec fn norm_angle(a: int) -> int {
    a % 360000
}

/// A piecewise-linear cosine in thousandths: exact at every multiple of a
/// quarter turn, linear in between.  The argument is an angle in thousandths
/// of a degree.
pub open spec fn spec_cos_milli(a: int) -> int {
    let m = norm_angle(a);
    if m <= 180000 {
        1000 - m / 90
    } else {
        -1000 + (m - 180000) / 90
    }
}

/// The matching piecewise-linear sine: a cosine shifted by a quarter turn.
pub open spec fn spec_sin_milli(a: int) -> int {
    spec_cos_milli(a - 90000)
}

/// Computes `spec_cos_milli` on an in-range angle.
pub fn cos_milli(a: i64) -> (r: i64)
    requires
        2 * FX_MIN <= a <= 2 * FX_MAX,
    ensures
        r as int == spec_cos_milli(a as int),
        -1000 <= r <= 1000,
{
    let m: i64 = if a >= 0 {
        a % 360000
    } else {
        let p: i64 = (-a) % 360000;
        if p == 0 {
            0
        } else {
            360000 - p
        }
    };
    proof {
        lemma_norm_angle(a as int);
        assert(m as int == norm_angle(a as int));
    }
    if m <= 180000 {
        1000 - m / 90
    } else {
        -1000 + (m - 180000) / 90
    }
}

/// Computes `spec_sin_milli` on an in-range angle.
pub fn sin_milli(a: i64) -> (r: i64)
    requires
        FX_MIN <= a <= FX_MAX,
    ensures
        r as int == spec_sin_milli(a as int),
        -1000 <= r <= 1000,
{
    cos_milli(a - 90000)
}

/// Relates the machine normalization of an angle (split on sign) to the
/// mathematical remainder, which is never negative.
proof fn lemma_norm_angle(a: int)
    ensures
        0 <= norm_angle(a) < 360000,
        a >= 0 ==> norm_angle(a) == a % 360000,
        a < 0 && (-a) % 360000 == 0 ==> norm_angle(a) == 0,
        a < 0 && (-a) % 360000 != 0 ==> norm_angle(a) == 360000 - (-a) % 360000,
{
    let n = 360000int;
    if a < 0 {
        let p = (-a) % n;
        assert((-a) == n * ((-a) / n) + p) by {
            vstd::arithmetic::div_mod::lemma_fundamental_div_mod(-a, n);
        }
        assert(a == n * (-((-a) / n)) - p);
        if p == 0 {
            assert(a % n == 0) by {
                vstd::arithmetic::div_mod::lemma_mod_multiples_vanish(-((-a) / n), 0, n);
            }
        } else {
            assert((n * (-((-a) / n)) - p) % n == (n - p) % n) by {
                vstd::arithmetic::div_mod::lemma_mod_multiples_vanish(
                    -((-a) / n) - 1,
                    n - p,
                    n,
                );
            }
            assert((n - p) % n == n - p) by {
                vstd::arithmetic::div_mod::lemma_small_mod((n - p) as nat, n as nat);
            }
        }
    }
}

} // verus!
