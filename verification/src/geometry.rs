//! Points, sizes and integer square roots.

use vstd::prelude::*;
use vstd::arithmetic::power::{pow, lemma_square_is_pow2};
use vstd::math::abs;

verus! {

/// A position in whole pixels.
#[derive(Clone, Copy, Debug, PartialEq, Eq, Structural)]
pub struct Point {
    pub x: i32,
    pub y: i32,
}

impl Point {
    /// The point `(x, y)`.
    pub fn new(x: i32, y: i32) -> (p: Point)
        ensures
            p == (Point { x, y }),
    {
        Point { x, y }
    }

    /// The origin.
    pub fn zero() -> (p: Point)
        ensures
            p == (Point { x: 0, y: 0 }),
    {
        Point { x: 0, y: 0 }
    }
}

/// The extent of a view or an image in whole pixels.
#[derive(Clone, Copy, Debug, PartialEq, Eq, Structural)]
pub struct Size {
    pub width: u32,
    pub height: u32,
}

/// `r` is the largest integer whose square does not exceed `n`.
pub open spec fn is_floor_sqrt(r: int, n: int) -> bool {
    &&& 0 <= r
    &&& r * r <= n
    &&& n < (r + 1) * (r + 1)
}

/// The floor of the square root of `n`, for `n` that is not negative.
pub open spec fn floor_sqrt(n: int) -> int {
    choose|r: int| is_floor_sqrt(r, n)
}

/// At most one integer is the floor of the square root of `n`.
pub proof fn lemma_floor_sqrt_unique(r1: int, r2: int, n: int)
    requires
        is_floor_sqrt(r1, n),
        is_floor_sqrt(r2, n),
    ensures
        r1 == r2,
{
    if r1 < r2 {
        assert((r1 + 1) * (r1 + 1) <= r2 * r2) by (nonlinear_arith)
            requires
                0 <= r1,
                r1 + 1 <= r2,
        ;
    } else if r2 < r1 {
        assert((r2 + 1) * (r2 + 1) <= r1 * r1) by (nonlinear_arith)
            requires
                0 <= r2,
                r2 + 1 <= r1,
        ;
    }
}

/// The floor of the square root of `n`, found by bisection.
pub fn isqrt(n: u128) -> (r: u64)
    ensures
        is_floor_sqrt(r as int, n as int),
        r == floor_sqrt(n as int),
{
    let mut lo: u128 = 0;
    let mut hi: u128 = 0x1_0000_0000_0000_0000;
    assert(0x1_0000_0000_0000_0000int * 0x1_0000_0000_0000_0000int > u128::MAX) by (nonlinear_arith);
    while hi - lo > 1
        invariant
            lo < hi <= 0x1_0000_0000_0000_0000,
            lo * lo <= n,
            n < hi * hi,
        decreases hi - lo,
    {
        let mid: u128 = lo + (hi - lo) / 2;
        assert(mid * mid <= 0xffff_ffff_ffff_ffff * 0xffff_ffff_ffff_ffff) by (nonlinear_arith)
            requires
                0 <= mid <= 0xffff_ffff_ffff_ffff,
        ;
        assert(0xffff_ffff_ffff_ffffint * 0xffff_ffff_ffff_ffffint <= u128::MAX) by (nonlinear_arith);
        if mid * mid <= n {
            lo = mid;
        } else {
            hi = mid;
        }
    }
    assert(hi == lo + 1);
    proof {
        lemma_floor_sqrt_unique(lo as int, floor_sqrt(n as int), n as int);
    }
    lo as u64
}

/// `base` raised to `exp` by `num_traits::pow`, which multiplies its way up
/// by repeated squaring. Every intermediate product is a power of `base` no
/// higher than `exp`, so none overflows where the largest one fits.
#[verifier::external_body]
fn integer_power(base: i128, exp: usize) -> (r: i128)
    requires
        pow(abs(base as int) as int, exp as nat) <= i128::MAX,
    ensures
        r == pow(base as int, exp as nat),
{
    num_traits::pow(base, exp)
}

/// The square of the difference of two coordinates.
fn squared_difference(p: i32, q: i32) -> (r: i128)
    ensures
        r == (p - q) * (p - q),
        0 <= r <= 0x1_0000_0000_0000_0000,
{
    let d: i128 = (p as i128) - (q as i128);
    proof {
        let m = abs(d as int) as int;
        lemma_square_is_pow2(m);
        lemma_square_is_pow2(d as int);
        assert(0 <= m * m <= 0x1_0000_0000_0000_0000) by (nonlinear_arith)
            requires
                0 <= m <= 0x1_0000_0000,
        ;
        assert(m * m == d * d) by (nonlinear_arith)
            requires
                m == d || m == -d,
        ;
    }
    integer_power(d, 2)
}

/// The square of the Euclidean distance between two points.
pub open spec fn distance_squared(p: Point, q: Point) -> int {
    (p.x - q.x) * (p.x - q.x) + (p.y - q.y) * (p.y - q.y)
}

/// The Euclidean distance between two points, rounded down to whole pixels.
pub fn distance(p: Point, q: Point) -> (d: u64)
    ensures
        is_floor_sqrt(d as int, distance_squared(p, q)),
        d == floor_sqrt(distance_squared(p, q)),
{
    let total: i128 = squared_difference(p.x, q.x) + squared_difference(p.y, q.y);
    isqrt(total as u128)
}

} // verus!
