//! Fixed-point plane geometry for the star field.
//!
//! Every coordinate is an `i64` counting 1/65536ths of a pixel, so the
//! geometric rules (the repulsion radius, the five-pixel step) are exact
//! integer statements. The repulsion step along a direction `(dx, dy)` is
//! the vector of length five pixels along that direction, computed with an
//! integer square root and division truncated toward zero.

use vstd::prelude::*;

verus! {

/// Fixed-point units per pixel.
pub const SCALE: i64 = 65536;

/// Length of one repulsion step: five pixels, in fixed-point units.
pub const STEP: i64 = 5 * SCALE;

/// Coordinates live in [-MAX_COORD, MAX_COORD] (about 17.6 trillion pixels
/// either way), which keeps every intermediate product inside `i128`.
pub const MAX_COORD: i64 = 0x1000_0000_0000_0000;

/// The squared repulsion radius: fifty pixels, squared, in fixed-point units.
pub const RADIUS_SQ: i64 = 2500 * SCALE * SCALE;

/// The largest integer whose square does not exceed `n`.
pub open spec fn sqrt_floor(n: nat) -> nat
    decreases n,
{
    if n == 0 {
        0
    } else {
        let r = sqrt_floor((n - 1) as nat);
        if (r + 1) * (r + 1) <= n {
            r + 1
        } else {
            r
        }
    }
}

/// `sqrt_floor(n)` is exactly the floor of the square root of `n`.
pub proof fn lemma_sqrt_floor(n: nat)
    ensures
        sqrt_floor(n) * sqrt_floor(n) <= n,
        n < (sqrt_floor(n) + 1) * (sqrt_floor(n) + 1),
    decreases n,
{
    if n > 0 {
        lemma_sqrt_floor((n - 1) as nat);
        let r = sqrt_floor((n - 1) as nat);
        assert(sqrt_floor(n) == if (r + 1) * (r + 1) <= n { r + 1 } else { r });
        if (r + 1) * (r + 1) <= n {
            assert(sqrt_floor(n) == r + 1);
            assert(sqrt_floor(n) * sqrt_floor(n) <= n) by (nonlinear_arith)
                requires sqrt_floor(n) == r + 1, (r + 1) * (r + 1) <= n;
            assert(n < (sqrt_floor(n) + 1) * (sqrt_floor(n) + 1)) by (nonlinear_arith)
                requires sqrt_floor(n) == r + 1, n <= (r + 1) * (r + 1);
        } else {
            assert(sqrt_floor(n) == r);
            assert(sqrt_floor(n) * sqrt_floor(n) <= n) by (nonlinear_arith)
                requires sqrt_floor(n) == r, r * r <= n;
            assert(n < (sqrt_floor(n) + 1) * (sqrt_floor(n) + 1)) by (nonlinear_arith)
                requires sqrt_floor(n) == r, n < (r + 1) * (r + 1);
        }
    } else {
        assert(sqrt_floor(0) == 0);
        assert(n < (sqrt_floor(n) + 1) * (sqrt_floor(n) + 1)) by (nonlinear_arith)
            requires n == 0, sqrt_floor(n) == 0;
    }
}

/// The floor of the square root is the only integer `d` with
/// `d * d <= n < (d + 1) * (d + 1)`.
pub proof fn lemma_sqrt_floor_unique(n: nat, d: nat)
    requires
        d * d <= n,
        n < (d + 1) * (d + 1),
    ensures
        sqrt_floor(n) == d,
{
    let s = sqrt_floor(n);
    lemma_sqrt_floor(n);
    if s < d {
        assert(d * d >= (s + 1) * (s + 1)) by (nonlinear_arith)
            requires s + 1 <= d;
    }
    if d < s {
        assert(s * s >= (d + 1) * (d + 1)) by (nonlinear_arith)
            requires d + 1 <= s;
    }
}

/// Integer square root by binary search.
pub fn isqrt(n: u64) -> (r: u64)
    ensures
        r == sqrt_floor(n as nat),
{
    let mut lo: u64 = 0;
    let mut hi: u64 = 0x1_0000_0000;
    while hi - lo > 1
        invariant
            lo < hi <= 0x1_0000_0000,
            (lo as int) * (lo as int) <= n as int,
            (n as int) < (hi as int) * (hi as int),
        decreases hi - lo,
    {
        let mid = lo + (hi - lo) / 2;
        assert((mid as int) * (mid as int) <= 0xFFFF_FFFF * 0xFFFF_FFFF) by (nonlinear_arith)
            requires mid <= 0xFFFF_FFFF;
        if mid * mid <= n {
            lo = mid;
        } else {
            hi = mid;
        }
    }
    proof {
        lemma_sqrt_floor_unique(n as nat, lo as nat);
    }
    lo
}

/// Horizontal part of the repulsion step along `(dx, dy)`: five pixels times
/// `dx` over the distance, truncated toward zero; `(STEP, 0)` when the
/// direction is degenerate (`dx == dy == 0`).
pub open spec fn step_x(dx: int, dy: int) -> int {
    if dx == 0 && dy == 0 {
        STEP as int
    } else {
        let d = sqrt_floor((dx * dx + dy * dy) as nat) as int;
        if dx >= 0 {
            ((STEP as int) * dx) / d
        } else {
            -(((STEP as int) * (-dx)) / d)
        }
    }
}

/// Vertical part of the repulsion step along `(dx, dy)`.
pub open spec fn step_y(dx: int, dy: int) -> int {
    if dx == 0 && dy == 0 {
        0
    } else {
        let d = sqrt_floor((dx * dx + dy * dy) as nat) as int;
        if dy >= 0 {
            ((STEP as int) * dy) / d
        } else {
            -(((STEP as int) * (-dy)) / d)
        }
    }
}

/// Compute the repulsion step for a direction strictly inside the repulsion
/// radius. Each component is at most one step long.
pub fn repulsion_step(dx: i64, dy: i64) -> (s: (i64, i64))
    requires
        (dx as int) * (dx as int) + (dy as int) * (dy as int) < RADIUS_SQ as int,
    ensures
        s.0 == step_x(dx as int, dy as int),
        s.1 == step_y(dx as int, dy as int),
        -STEP <= s.0 <= STEP,
        -STEP <= s.1 <= STEP,
{
    if dx == 0 && dy == 0 {
        return (STEP, 0);
    }
    proof {
        assert(-3276800 < dx < 3276800 && -3276800 < dy < 3276800) by (nonlinear_arith)
            requires (dx as int) * (dx as int) + (dy as int) * (dy as int) < 10737418240000;
    }
    let dxa: u64 = if dx >= 0 { dx as u64 } else { (-dx) as u64 };
    let dya: u64 = if dy >= 0 { dy as u64 } else { (-dy) as u64 };
    proof {
        assert((dxa as int) * (dxa as int) == (dx as int) * (dx as int)
            && (dya as int) * (dya as int) == (dy as int) * (dy as int)) by (nonlinear_arith)
            requires
                dxa == if dx >= 0 { dx as int } else { -(dx as int) },
                dya == if dy >= 0 { dy as int } else { -(dy as int) };
        assert((dxa as int) * (dxa as int) <= 3276799 * 3276799
            && (dya as int) * (dya as int) <= 3276799 * 3276799) by (nonlinear_arith)
            requires dxa <= 3276799 && dya <= 3276799;
    }
    let dd: u64 = dxa * dxa + dya * dya;
    let d: u64 = isqrt(dd);
    proof {
        lemma_sqrt_floor(dd as nat);
        assert(dd >= 1) by (nonlinear_arith)
            requires dxa + dya >= 1, dd == (dxa as int) * (dxa as int) + (dya as int) * (dya as int);
        assert(d >= 1) by (nonlinear_arith)
            requires dd >= 1, (dd as int) < ((d as int) + 1) * ((d as int) + 1), d >= 0;
        assert(dxa <= d && dya <= d) by (nonlinear_arith)
            requires
                (dxa as int) * (dxa as int) <= dd as int,
                (dya as int) * (dya as int) <= dd as int,
                (dd as int) < ((d as int) + 1) * ((d as int) + 1),
                0 <= d;
    }
    let mag_x: u64 = (STEP as u64) * dxa / d;
    let mag_y: u64 = (STEP as u64) * dya / d;
    proof {
        vstd::arithmetic::mul::lemma_mul_inequality(dxa as int, d as int, STEP as int);
        vstd::arithmetic::mul::lemma_mul_inequality(dya as int, d as int, STEP as int);
        vstd::arithmetic::div_mod::lemma_multiply_divide_le(
            (STEP as int) * (dxa as int), d as int, STEP as int);
        vstd::arithmetic::div_mod::lemma_multiply_divide_le(
            (STEP as int) * (dya as int), d as int, STEP as int);
    }
    let sx: i64 = if dx >= 0 { mag_x as i64 } else { -(mag_x as i64) };
    let sy: i64 = if dy >= 0 { mag_y as i64 } else { -(mag_y as i64) };
    (sx, sy)
}

} // verus!
