//! Fixed-point arithmetic for the kinematic attributes of a particle.
//!
//! Initiative, velocity, sub-cell position, mass and temperature are whole
//! numbers of millionths: `ONE` stands for one cell, or one cell per tick.
//! Sums and differences stop at the ends of the 32-bit range instead of
//! wrapping around.

use vstd::prelude::*;

verus! {

/// A quantity in millionths.
pub type Fixed = i32;

/// One whole unit.
pub const ONE: Fixed = 1_000_000;

/// What a diagonal step costs beyond a straight one: the diagonal of the unit
/// square less its side, rounded down to a millionth.
pub const DIAGONAL_COST: Fixed = 414_213;

/// `r` is the square root of `n`, rounded down.
pub open spec fn is_root(n: int, r: int) -> bool {
    0 <= r && r * r <= n < (r + 1) * (r + 1)
}

/// The square root of `n`, rounded down.
pub open spec fn root(n: int) -> int {
    choose|r: int| is_root(n, r)
}

/// `v`, or the end of the 32-bit range that `v` lies beyond.
pub open spec fn clamped(v: int) -> int {
    if v > i32::MAX {
        i32::MAX as int
    } else if v < i32::MIN {
        i32::MIN as int
    } else {
        v
    }
}

/// The length of the velocity `(vx, vy)`.
pub open spec fn speed(vx: int, vy: int) -> int {
    clamped(root(vx * vx + vy * vy))
}

/// A number has at most one rounded-down square root.
pub proof fn lemma_root_unique(n: int, r1: int, r2: int)
    requires
        is_root(n, r1),
        is_root(n, r2),
    ensures
        r1 == r2,
{
    if r1 < r2 {
        assert((r1 + 1) * (r1 + 1) <= r2 * r2) by (nonlinear_arith)
            requires
                0 <= r1,
                r1 + 1 <= r2,
        ;
    }
    if r2 < r1 {
        assert((r2 + 1) * (r2 + 1) <= r1 * r1) by (nonlinear_arith)
            requires
                0 <= r2,
                r2 + 1 <= r1,
        ;
    }
}

/// Whatever meets `is_root` for `n` is `root(n)`.
pub proof fn lemma_root_is(n: int, r: int)
    requires
        is_root(n, r),
    ensures
        root(n) == r,
{
    lemma_root_unique(n, r, root(n));
}

/// The diagonal cost is the diagonal of the unit square less its side.
pub proof fn lemma_diagonal_cost()
    ensures
        DIAGONAL_COST == root(2 * ONE * ONE) - ONE,
{
    assert(is_root(2 * ONE * ONE, 1_414_213)) by (nonlinear_arith)
        requires
            ONE == 1_000_000,
    ;
    lemma_root_is(2 * ONE * ONE, 1_414_213);
}

/// The square root of `n`, rounded down.
pub fn isqrt(n: u64) -> (r: u64)
    ensures
        r == root(n as int),
        is_root(n as int, r as int),
        r <= 0xffff_ffff,
{
    let mut low: u64 = 0;
    let mut high: u64 = 0x1_0000_0000;
    assert(low * low <= n < high * high) by (nonlinear_arith)
        requires
            low == 0,
            high == 0x1_0000_0000,
            n <= 0xffff_ffff_ffff_ffff,
    ;
    while high - low > 1
        invariant
            low < high <= 0x1_0000_0000,
            low * low <= n < high * high,
        decreases high - low,
    {
        let mid: u64 = low + (high - low) / 2;
        assert(mid * mid <= 0xffff_ffff * 0xffff_ffff) by (nonlinear_arith)
            requires
                mid <= 0xffff_ffff,
        ;
        if mid * mid <= n {
            low = mid;
        } else {
            high = mid;
        }
    }
    proof {
        lemma_root_is(n as int, low as int);
    }
    low
}

/// `a + b`, stopped at the ends of the 32-bit range.
pub fn plus(a: Fixed, b: Fixed) -> (sum: Fixed)
    ensures
        sum == clamped(a + b),
{
    let wide: i64 = a as i64 + b as i64;
    clamp(wide)
}

/// `a - b`, stopped at the ends of the 32-bit range.
pub fn minus(a: Fixed, b: Fixed) -> (difference: Fixed)
    ensures
        difference == clamped(a - b),
{
    let wide: i64 = a as i64 - b as i64;
    clamp(wide)
}

/// The length of the velocity `(vx, vy)`, stopped at the upper end of the
/// 32-bit range.
pub fn speed_of(vx: Fixed, vy: Fixed) -> (s: Fixed)
    ensures
        s == speed(vx as int, vy as int),
        s >= 0,
{
    let x: u64 = magnitude(vx);
    let y: u64 = magnitude(vy);
    assert(x * x == vx * vx && y * y == vy * vy && x * x + y * y <= 0x8000_0000_0000_0000)
        by (nonlinear_arith)
        requires
            x == vx || x == -vx,
            y == vy || y == -vy,
            x <= 0x8000_0000,
            y <= 0x8000_0000,
    ;
    let length: u64 = isqrt(x * x + y * y);
    if length > i32::MAX as u64 {
        i32::MAX
    } else {
        length as i32
    }
}

/// The distance of `v` from zero.
fn magnitude(v: Fixed) -> (m: u64)
    ensures
        m == v || m == -v,
        m <= 0x8000_0000,
{
    if v >= 0 {
        v as u64
    } else {
        (-(v as i64)) as u64
    }
}

fn clamp(wide: i64) -> (v: Fixed)
    ensures
        v == clamped(wide as int),
{
    if wide > i32::MAX as i64 {
        i32::MAX
    } else if wide < i32::MIN as i64 {
        i32::MIN
    } else {
        wide as i32
    }
}

} // verus!
