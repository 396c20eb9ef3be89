//! Affine transforms with integer coefficients: the identity, the two flips,
//! quarter turns about a centre, translations, and their compositions.

use vstd::prelude::*;
use vstd::arithmetic::mul::{
    lemma_mul_is_associative, lemma_mul_is_distributive_add,
    lemma_mul_is_distributive_add_other_way,
};
use crate::geometry::Point;

verus! {

/// A 2×3 matrix of mathematical integers. It maps `(x, y)` to
/// `(a·x + c·y + e, b·x + d·y + f)`.
pub struct Matrix {
    pub a: int,
    pub b: int,
    pub c: int,
    pub d: int,
    pub e: int,
    pub f: int,
}

impl Matrix {
    /// The transform that moves nothing.
    pub open spec fn identity() -> Matrix {
        Matrix { a: 1, b: 0, c: 0, d: 1, e: 0, f: 0 }
    }

    /// The horizontal flip about the origin: `x` becomes `-x`.
    pub open spec fn flip_x() -> Matrix {
        Matrix { a: -1, b: 0, c: 0, d: 1, e: 0, f: 0 }
    }

    /// The vertical flip about the origin: `y` becomes `-y`.
    pub open spec fn flip_y() -> Matrix {
        Matrix { a: 1, b: 0, c: 0, d: -1, e: 0, f: 0 }
    }

    /// The shift by `(dx, dy)`.
    pub open spec fn translate(dx: int, dy: int) -> Matrix {
        Matrix { a: 1, b: 0, c: 0, d: 1, e: dx, f: dy }
    }

    /// The quarter turn about `(cx, cy)` that takes the positive x axis to
    /// the positive y axis (clockwise where y grows downwards).
    pub open spec fn quarter_turn(cx: int, cy: int) -> Matrix {
        Matrix { a: 0, b: 1, c: -1, d: 0, e: cx + cy, f: cy - cx }
    }

    /// The quarter turn about `(cx, cy)` in the opposite direction.
    pub open spec fn counter_quarter_turn(cx: int, cy: int) -> Matrix {
        Matrix { a: 0, b: -1, c: 1, d: 0, e: cx - cy, f: cx + cy }
    }

    /// The half turn about `(cx, cy)`: two quarter turns.
    pub open spec fn half_turn(cx: int, cy: int) -> Matrix {
        Matrix { a: -1, b: 0, c: 0, d: -1, e: 2 * cx, f: 2 * cy }
    }

    /// `self ∘ other`: the transform that applies `other` first, then `self`.
    pub open spec fn compose(self, other: Matrix) -> Matrix {
        Matrix {
            a: self.a * other.a + self.c * other.b,
            b: self.b * other.a + self.d * other.b,
            c: self.a * other.c + self.c * other.d,
            d: self.b * other.c + self.d * other.d,
            e: self.a * other.e + self.c * other.f + self.e,
            f: self.b * other.e + self.d * other.f + self.f,
        }
    }

    /// The image of the point `(x, y)`.
    pub open spec fn apply(self, x: int, y: int) -> (int, int) {
        (self.a * x + self.c * y + self.e, self.b * x + self.d * y + self.f)
    }

    /// Every coefficient is representable as an `i64`.
    pub open spec fn fits(self) -> bool {
        &&& i64::MIN <= self.a <= i64::MAX
        &&& i64::MIN <= self.b <= i64::MAX
        &&& i64::MIN <= self.c <= i64::MAX
        &&& i64::MIN <= self.d <= i64::MAX
        &&& i64::MIN <= self.e <= i64::MAX
        &&& i64::MIN <= self.f <= i64::MAX
    }

    /// The transform exchanges the two axes, as an odd number of quarter
    /// turns does.
    pub open spec fn swaps_axes(self) -> bool {
        self.a == 0 && self.d == 0
    }
}

/// An affine transform with `i64` coefficients, laid out as [`Matrix`].
#[derive(Clone, Copy, Debug, PartialEq, Eq, Structural)]
pub struct Transform {
    pub a: i64,
    pub b: i64,
    pub c: i64,
    pub d: i64,
    pub e: i64,
    pub f: i64,
}

impl View for Transform {
    type V = Matrix;

    open spec fn view(&self) -> Matrix {
        Matrix {
            a: self.a as int,
            b: self.b as int,
            c: self.c as int,
            d: self.d as int,
            e: self.e as int,
            f: self.f as int,
        }
    }
}

/// The transform with the coefficients of a matrix that fits.
pub open spec fn transform_of(m: Matrix) -> Transform {
    Transform {
        a: m.a as i64,
        b: m.b as i64,
        c: m.c as i64,
        d: m.d as i64,
        e: m.e as i64,
        f: m.f as i64,
    }
}

/// The product of two `i64` values, which always fits in an `i128`.
fn wide_product(x: i64, y: i64) -> (r: i128)
    ensures
        r == x * y,
        -0x4000_0000_0000_0000_0000_0000_0000_0000 <= r <= 0x4000_0000_0000_0000_0000_0000_0000_0000,
{
    assert(-0x4000_0000_0000_0000_0000_0000_0000_0000 <= x * y
        <= 0x4000_0000_0000_0000_0000_0000_0000_0000) by (nonlinear_arith)
        requires
            -0x8000_0000_0000_0000 <= x <= 0x7fff_ffff_ffff_ffff,
            -0x8000_0000_0000_0000 <= y <= 0x7fff_ffff_ffff_ffff,
    ;
    (x as i128) * (y as i128)
}

/// `v` as an `i64`, where it is in range.
fn narrow(v: i128) -> (r: Option<i64>)
    ensures
        match r {
            Some(x) => x == v,
            None => v < i64::MIN || v > i64::MAX,
        },
{
    if v < i64::MIN as i128 || v > i64::MAX as i128 {
        None
    } else {
        Some(v as i64)
    }
}

/// `x1·y1 + x2·y2 + z`, where that is in the range of `i64`.
fn dot(x1: i64, y1: i64, x2: i64, y2: i64, z: i64) -> (r: Option<i64>)
    ensures
        match r {
            Some(v) => v == x1 * y1 + x2 * y2 + z,
            None => x1 * y1 + x2 * y2 + z < i64::MIN || x1 * y1 + x2 * y2 + z > i64::MAX,
        },
{
    let first = wide_product(x1, y1);
    let rest = wide_product(x2, y2) + (z as i128);
    match first.checked_add(rest) {
        Some(sum) => narrow(sum),
        None => None,
    }
}

impl Transform {
    /// The transform that moves nothing.
    pub fn identity() -> (t: Transform)
        ensures
            t@ == Matrix::identity(),
    {
        Transform { a: 1, b: 0, c: 0, d: 1, e: 0, f: 0 }
    }

    /// The horizontal flip about the origin.
    pub fn flip_x() -> (t: Transform)
        ensures
            t@ == Matrix::flip_x(),
    {
        Transform { a: -1, b: 0, c: 0, d: 1, e: 0, f: 0 }
    }

    /// The vertical flip about the origin.
    pub fn flip_y() -> (t: Transform)
        ensures
            t@ == Matrix::flip_y(),
    {
        Transform { a: 1, b: 0, c: 0, d: -1, e: 0, f: 0 }
    }

    /// The shift by `(dx, dy)`.
    pub fn translate(dx: i64, dy: i64) -> (t: Transform)
        ensures
            t@ == Matrix::translate(dx as int, dy as int),
    {
        Transform { a: 1, b: 0, c: 0, d: 1, e: dx, f: dy }
    }

    /// The clockwise quarter turn about `center`.
    pub fn quarter_turn(center: Point) -> (t: Transform)
        ensures
            t@ == Matrix::quarter_turn(center.x as int, center.y as int),
    {
        let cx: i64 = center.x as i64;
        let cy: i64 = center.y as i64;
        Transform { a: 0, b: 1, c: -1, d: 0, e: cx + cy, f: cy - cx }
    }

    /// The half turn about `center`.
    pub fn half_turn(center: Point) -> (t: Transform)
        ensures
            t@ == Matrix::half_turn(center.x as int, center.y as int),
    {
        Transform { a: -1, b: 0, c: 0, d: -1, e: 2 * (center.x as i64), f: 2 * (center.y as i64) }
    }

    /// The counterclockwise quarter turn about `center`.
    pub fn counter_quarter_turn(center: Point) -> (t: Transform)
        ensures
            t@ == Matrix::counter_quarter_turn(center.x as int, center.y as int),
    {
        let cx: i64 = center.x as i64;
        let cy: i64 = center.y as i64;
        Transform { a: 0, b: -1, c: 1, d: 0, e: cx - cy, f: cx + cy }
    }

    /// `self ∘ other`, or `None` where a coefficient of the composition
    /// leaves the range of `i64`.
    pub fn compose(&self, other: &Transform) -> (r: Option<Transform>)
        ensures
            match r {
                Some(t) => t@ == self@.compose(other@),
                None => !self@.compose(other@).fits(),
            },
    {
        let a = dot(self.a, other.a, self.c, other.b, 0);
        let b = dot(self.b, other.a, self.d, other.b, 0);
        let c = dot(self.a, other.c, self.c, other.d, 0);
        let d = dot(self.b, other.c, self.d, other.d, 0);
        let e = dot(self.a, other.e, self.c, other.f, self.e);
        let f = dot(self.b, other.e, self.d, other.f, self.f);
        match (a, b, c, d, e, f) {
            (Some(a), Some(b), Some(c), Some(d), Some(e), Some(f)) => Some(
                Transform { a, b, c, d, e, f },
            ),
            _ => None,
        }
    }

    /// Whether the transform exchanges the two axes.
    pub fn swaps_axes(&self) -> (r: bool)
        ensures
            r == self@.swaps_axes(),
    {
        self.a == 0 && self.d == 0
    }
}

/// Two transforms with the same matrix are the same transform.
pub proof fn lemma_view_injective(s: Transform, t: Transform)
    requires
        s@ == t@,
    ensures
        s == t,
{
}

/// `p·(x1·r1 + x2·r2) + q·(y1·r1 + y2·r2)` regrouped by `r1` and `r2`.
proof fn lemma_regroup(p: int, q: int, x1: int, x2: int, y1: int, y2: int, r1: int, r2: int)
    ensures
        p * (x1 * r1 + x2 * r2) + q * (y1 * r1 + y2 * r2) == (p * x1 + q * y1) * r1 + (p * x2 + q
            * y2) * r2,
{
    lemma_mul_is_distributive_add(p, x1 * r1, x2 * r2);
    lemma_mul_is_distributive_add(q, y1 * r1, y2 * r2);
    lemma_mul_is_associative(p, x1, r1);
    lemma_mul_is_associative(p, x2, r2);
    lemma_mul_is_associative(q, y1, r1);
    lemma_mul_is_associative(q, y2, r2);
    lemma_mul_is_distributive_add_other_way(r1, p * x1, q * y1);
    lemma_mul_is_distributive_add_other_way(r2, p * x2, q * y2);
}

/// Composition is associative.
pub proof fn lemma_compose_associative(p: Matrix, q: Matrix, r: Matrix)
    ensures
        p.compose(q.compose(r)) == p.compose(q).compose(r),
{
    lemma_regroup(p.a, p.c, q.a, q.c, q.b, q.d, r.a, r.b);
    lemma_regroup(p.b, p.d, q.a, q.c, q.b, q.d, r.a, r.b);
    lemma_regroup(p.a, p.c, q.a, q.c, q.b, q.d, r.c, r.d);
    lemma_regroup(p.b, p.d, q.a, q.c, q.b, q.d, r.c, r.d);
    lemma_regroup(p.a, p.c, q.a, q.c, q.b, q.d, r.e, r.f);
    lemma_regroup(p.b, p.d, q.a, q.c, q.b, q.d, r.e, r.f);
    lemma_mul_is_distributive_add(p.a, q.a * r.e + q.c * r.f, q.e);
    lemma_mul_is_distributive_add(p.c, q.b * r.e + q.d * r.f, q.f);
    lemma_mul_is_distributive_add(p.b, q.a * r.e + q.c * r.f, q.e);
    lemma_mul_is_distributive_add(p.d, q.b * r.e + q.d * r.f, q.f);
}

/// Applying a composition is applying its second factor, then its first.
pub proof fn lemma_compose_applies(p: Matrix, q: Matrix, x: int, y: int)
    ensures
        p.compose(q).apply(x, y) == p.apply(q.apply(x, y).0, q.apply(x, y).1),
{
    lemma_regroup(p.a, p.c, q.a, q.c, q.b, q.d, x, y);
    lemma_regroup(p.b, p.d, q.a, q.c, q.b, q.d, x, y);
    lemma_mul_is_distributive_add(p.a, q.a * x + q.c * y, q.e);
    lemma_mul_is_distributive_add(p.c, q.b * x + q.d * y, q.f);
    lemma_mul_is_distributive_add(p.b, q.a * x + q.c * y, q.e);
    lemma_mul_is_distributive_add(p.d, q.b * x + q.d * y, q.f);
}

/// The identity is neutral for composition on both sides.
pub proof fn lemma_identity_neutral(m: Matrix)
    ensures
        Matrix::identity().compose(m) == m,
        m.compose(Matrix::identity()) == m,
{
}

/// Each flip undoes itself, and the two flips commute.
pub proof fn lemma_flips_self_inverse()
    ensures
        Matrix::flip_x().compose(Matrix::flip_x()) == Matrix::identity(),
        Matrix::flip_y().compose(Matrix::flip_y()) == Matrix::identity(),
        Matrix::flip_x().compose(Matrix::flip_y()) == Matrix::flip_y().compose(Matrix::flip_x()),
{
}

/// A quarter turn and the opposite quarter turn about the same centre cancel,
/// and four quarter turns make a full turn.
pub proof fn lemma_quarter_turns(cx: int, cy: int)
    ensures
        Matrix::quarter_turn(cx, cy).compose(Matrix::counter_quarter_turn(cx, cy))
            == Matrix::identity(),
        Matrix::counter_quarter_turn(cx, cy).compose(Matrix::quarter_turn(cx, cy))
            == Matrix::identity(),
        Matrix::quarter_turn(cx, cy).compose(Matrix::quarter_turn(cx, cy)).compose(
            Matrix::quarter_turn(cx, cy).compose(Matrix::quarter_turn(cx, cy)),
        ) == Matrix::identity(),
        Matrix::quarter_turn(cx, cy).compose(Matrix::quarter_turn(cx, cy)) == Matrix::half_turn(
            cx,
            cy,
        ),
        Matrix::quarter_turn(cx, cy).apply(cx, cy) == (cx, cy),
{
    let half = Matrix::quarter_turn(cx, cy).compose(Matrix::quarter_turn(cx, cy));
    let explicit = Matrix { a: -1, b: 0, c: 0, d: -1, e: 2 * cx, f: 2 * cy };
    assert(half == explicit);
    assert(explicit.compose(explicit) == Matrix::identity()) by (nonlinear_arith)
        requires
            explicit == (Matrix { a: -1, b: 0, c: 0, d: -1, e: 2 * cx, f: 2 * cy }),
    ;
}

} // verus!
