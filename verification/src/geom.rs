//! Plane geometry over fixed-point coordinates: squared distance and an
//! exact integer square root, the two primitives the simulation measures
//! distances with.

use vstd::prelude::*;

verus! {

/// Largest coordinate magnitude the simulation works with, in milliunits.
/// Small enough that a squared distance always fits in `u64`.
pub const COORD_LIMIT: i64 = 1_000_000_000;

/// A point or displacement in the plane, in milliunits.
#[derive(Clone, Copy, Debug, PartialEq, Eq, Structural)]
pub struct Vec2 {
    pub x: i64,
    pub y: i64,
}

/// Both coordinates lie within the working range.
pub open spec fn in_bounds(v: Vec2) -> bool {
    -COORD_LIMIT <= v.x <= COORD_LIMIT && -COORD_LIMIT <= v.y <= COORD_LIMIT
}

/// Squared Euclidean distance between two points.
pub open spec fn dist_sq(a: Vec2, b: Vec2) -> int {
    (a.x - b.x) * (a.x - b.x) + (a.y - b.y) * (a.y - b.y)
}

/// Floor of the square root, defined by counting up.
pub open spec fn sqrt_floor(n: nat) -> nat
    decreases n,
{
    if n == 0 {
        0
    } else {
        let r = sqrt_floor((n - 1) as nat);
        if (r + 1) * (r + 1) <= n {
            r + 1
        } else {
            r
        }
    }
}

/// `sqrt_floor(n)` is the unique natural `r` with `r * r <= n < (r + 1) * (r + 1)`.
pub proof fn lemma_sqrt_floor_bounds(n: nat)
    ensures
        sqrt_floor(n) * sqrt_floor(n) <= n,
        n < (sqrt_floor(n) + 1) * (sqrt_floor(n) + 1),
    decreases n,
{
    if n == 0 {
        let s = sqrt_floor(n);
        assert(s == 0);
        assert((s + 1) * (s + 1) == 1) by (nonlinear_arith)
            requires
                s == 0nat,
        ;
    } else {
        lemma_sqrt_floor_bounds((n - 1) as nat);
        let r = sqrt_floor((n - 1) as nat);
        if (r + 1) * (r + 1) <= n {
            assert(sqrt_floor(n) == r + 1);
            assert(n == (r + 1) * (r + 1));
            assert((r + 1) * (r + 1) < (r + 1 + 1) * (r + 1 + 1)) by (nonlinear_arith);
        }
    }
}

/// No other natural satisfies the square-root bracketing.
pub proof fn lemma_sqrt_floor_unique(n: nat, r: nat)
    requires
        r * r <= n,
        n < (r + 1) * (r + 1),
    ensures
        r == sqrt_floor(n),
{
    lemma_sqrt_floor_bounds(n);
    let s = sqrt_floor(n);
    if r < s {
        assert((r + 1) * (r + 1) <= s * s) by (nonlinear_arith)
            requires
                r + 1 <= s,
        ;
    } else if s < r {
        assert((s + 1) * (s + 1) <= r * r) by (nonlinear_arith)
            requires
                s + 1 <= r,
        ;
    }
}

/// Floor of the square root of `n`, by binary search.
pub fn isqrt(n: u64) -> (r: u64)
    ensures
        r == sqrt_floor(n as nat),
        r * r <= n,
        n < (r + 1) * (r + 1),
{
    let mut lo: u64 = 0;
    let mut hi: u64 = 4_294_967_295;
    proof {
        assert((hi + 1) * (hi + 1) > u64::MAX) by (nonlinear_arith)
            requires
                hi == 4_294_967_295u64,
        ;
    }
    while lo < hi
        invariant
            lo <= hi <= 4_294_967_295,
            lo * lo <= n,
            n < (hi + 1) * (hi + 1),
        decreases hi - lo,
    {
        let mid: u64 = lo + (hi - lo + 1) / 2;
        proof {
            assert(mid * mid <= 0xFFFF_FFFE_0000_0001u64) by (nonlinear_arith)
                requires
                    mid <= 4_294_967_295u64,
            ;
        }
        let sq: u64 = mid * mid;
        if sq <= n {
            lo = mid;
        } else {
            hi = mid - 1;
        }
    }
    proof {
        lemma_sqrt_floor_unique(n as nat, lo as nat);
    }
    lo
}

/// Squared distance between two in-range points, computed exactly.
pub fn dist_sq_u64(a: Vec2, b: Vec2) -> (r: u64)
    requires
        in_bounds(a),
        in_bounds(b),
    ensures
        r == dist_sq(a, b),
{
    let dx: u64 = if a.x >= b.x {
        (a.x - b.x) as u64
    } else {
        (b.x - a.x) as u64
    };
    let dy: u64 = if a.y >= b.y {
        (a.y - b.y) as u64
    } else {
        (b.y - a.y) as u64
    };
    proof {
        assert(dx * dx == (a.x - b.x) * (a.x - b.x)) by (nonlinear_arith)
            requires
                dx == a.x - b.x || dx == b.x - a.x,
        ;
        assert(dy * dy == (a.y - b.y) * (a.y - b.y)) by (nonlinear_arith)
            requires
                dy == a.y - b.y || dy == b.y - a.y,
        ;
        assert(dx * dx <= 4_000_000_000_000_000_000 && dy * dy <= 4_000_000_000_000_000_000)
            by (nonlinear_arith)
            requires
                dx <= 2_000_000_000u64,
                dy <= 2_000_000_000u64,
        ;
    }
    dx * dx + dy * dy
}

/// Squaring preserves order on the naturals.
pub proof fn lemma_square_le(a: int, b: int)
    by (nonlinear_arith)
    requires
        0 <= a <= b,
    ensures
        a * a <= b * b,
{
}

/// Scaling by a fraction `a / d` with `a <= d` does not increase the factor.
pub proof fn lemma_mul_div_le(a: int, s: int, d: int)
    requires
        0 <= a <= d,
        0 <= s,
        0 < d,
    ensures
        0 <= (a * s) / d <= s,
{
    vstd::arithmetic::mul::lemma_mul_inequality(a, d, s);
    vstd::arithmetic::div_mod::lemma_div_is_ordered(a * s, d * s, d);
    vstd::arithmetic::div_mod::lemma_div_multiples_vanish(s, d);
    vstd::arithmetic::mul::lemma_mul_is_commutative(d, s);
    vstd::arithmetic::mul::lemma_mul_nonnegative(a, s);
    vstd::arithmetic::div_mod::lemma_div_pos_is_pos(a * s, d);
}

/// Distance between two points, rounded down to whole milliunits.
pub fn distance(a: Vec2, b: Vec2) -> (r: u64)
    requires
        in_bounds(a),
        in_bounds(b),
    ensures
        r == sqrt_floor(dist_sq(a, b) as nat),
{
    isqrt(dist_sq_u64(a, b))
}

} // verus!
