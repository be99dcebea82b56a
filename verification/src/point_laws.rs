//! Laws of the plane's point operations: for any coordinate type whose
//! operations have the needed algebraic properties, and over `i64`.

use vstd::prelude::*;
use vstd::std_specs::ops::AddSpec;
use vstd::std_specs::ops::MulSpec;
use std::ops::Add;
use std::ops::Mul;

use crate::math::Identity;
use crate::plane::Point;

verus! {

/// For any coordinate type whose `*` commutes (and may be applied to `a, b`
/// exactly when to `b, a`), the dot product is symmetric:
/// `p.dot(q) == q.dot(p)`, and `q.dot(p)` may be taken when `p.dot(q)` may.
pub proof fn lemma_dot_commutes<T: Mul<Output = T> + Add<Output = T>>(p: Point<T>, q: Point<T>)
    requires
        forall|a: T, b: T| #[trigger] a.mul_spec(b) == b.mul_spec(a),
        forall|a: T, b: T| #[trigger] a.mul_req(b) == b.mul_req(a),
        p.spec_x().mul_req(q.spec_x()),
        p.spec_y().mul_req(q.spec_y()),
        p.spec_x().mul_spec(q.spec_x()).add_req(p.spec_y().mul_spec(q.spec_y())),
    ensures
        q.spec_x().mul_req(p.spec_x()),
        q.spec_y().mul_req(p.spec_y()),
        q.spec_x().mul_spec(p.spec_x()).add_req(q.spec_y().mul_spec(p.spec_y())),
        p.spec_x().mul_spec(q.spec_x()).add_spec(p.spec_y().mul_spec(q.spec_y())) == q.spec_x().mul_spec(
            p.spec_x(),
        ).add_spec(q.spec_y().mul_spec(p.spec_y())),
{
    assert(p.spec_x().mul_spec(q.spec_x()) == q.spec_x().mul_spec(p.spec_x()));
    assert(p.spec_y().mul_spec(q.spec_y()) == q.spec_y().mul_spec(p.spec_y()));
    assert(p.spec_x().mul_req(q.spec_x()) == q.spec_x().mul_req(p.spec_x()));
    assert(p.spec_y().mul_req(q.spec_y()) == q.spec_y().mul_req(p.spec_y()));
}

/// For any coordinate type whose `T::default()` is a two-sided identity of
/// `+`, moving a point by the origin leaves it where it is.
pub proof fn lemma_translate_by_origin<T: Add<Output = T> + Default>(p: Point<T>, o: Point<T>)
    requires
        forall|a: T, d: T| call_ensures(T::default, (), d) ==> #[trigger] a.add_req(d) && a.add_spec(d) == a,
        call_ensures(T::default, (), o.spec_x()),
        call_ensures(T::default, (), o.spec_y()),
    ensures
        p.spec_x().add_req(o.spec_x()),
        p.spec_y().add_req(o.spec_y()),
        p.spec_x().add_spec(o.spec_x()) == p.spec_x(),
        p.spec_y().add_spec(o.spec_y()) == p.spec_y(),
{
    assert(p.spec_x().add_req(o.spec_x()));
    assert(p.spec_y().add_req(o.spec_y()));
}

/// For any coordinate type whose `+` commutes, moving `p` by `q` lands
/// where moving `q` by `p` does.
pub proof fn lemma_translate_symmetric<T: Add<Output = T>>(p: Point<T>, q: Point<T>)
    requires
        forall|a: T, b: T| #[trigger] a.add_spec(b) == b.add_spec(a),
        forall|a: T, b: T| #[trigger] a.add_req(b) == b.add_req(a),
        p.spec_x().add_req(q.spec_x()),
        p.spec_y().add_req(q.spec_y()),
    ensures
        q.spec_x().add_req(p.spec_x()),
        q.spec_y().add_req(p.spec_y()),
        p.spec_x().add_spec(q.spec_x()) == q.spec_x().add_spec(p.spec_x()),
        p.spec_y().add_spec(q.spec_y()) == q.spec_y().add_spec(p.spec_y()),
{
    assert(p.spec_x().add_req(q.spec_x()) == q.spec_x().add_req(p.spec_x()));
    assert(p.spec_y().add_req(q.spec_y()) == q.spec_y().add_req(p.spec_y()));
    assert(p.spec_x().add_spec(q.spec_x()) == q.spec_x().add_spec(p.spec_x()));
    assert(p.spec_y().add_spec(q.spec_y()) == q.spec_y().add_spec(p.spec_y()));
}

/// For any coordinate type whose `+` is associative, moving by `q` then by
/// `r` is moving by `q` moved by `r`.
pub proof fn lemma_translate_associative<T: Add<Output = T>>(p: Point<T>, q: Point<T>, r: Point<T>)
    requires
        forall|a: T, b: T, c: T| #[trigger] a.add_spec(b).add_spec(c) == a.add_spec(b.add_spec(c)),
    ensures
        p.spec_x().add_spec(q.spec_x()).add_spec(r.spec_x()) == p.spec_x().add_spec(
            q.spec_x().add_spec(r.spec_x()),
        ),
        p.spec_y().add_spec(q.spec_y()).add_spec(r.spec_y()) == p.spec_y().add_spec(
            q.spec_y().add_spec(r.spec_y()),
        ),
{
    assert(p.spec_x().add_spec(q.spec_x()).add_spec(r.spec_x()) == p.spec_x().add_spec(
        q.spec_x().add_spec(r.spec_x()),
    ));
    assert(p.spec_y().add_spec(q.spec_y()).add_spec(r.spec_y()) == p.spec_y().add_spec(
        q.spec_y().add_spec(r.spec_y()),
    ));
}

/// For any coordinate type whose `T::identity()` is a right identity of `*`,
/// scaling by it leaves a point where it is.
pub proof fn lemma_scale_by_identity<T: Mul<Output = T> + Identity>(p: Point<T>)
    requires
        forall|a: T| #[trigger] a.mul_req(T::spec_identity()) && a.mul_spec(T::spec_identity()) == a,
    ensures
        p.spec_x().mul_req(T::spec_identity()),
        p.spec_y().mul_req(T::spec_identity()),
        p.spec_x().mul_spec(T::spec_identity()) == p.spec_x(),
        p.spec_y().mul_spec(T::spec_identity()) == p.spec_y(),
{
    assert(p.spec_x().mul_req(T::spec_identity()));
    assert(p.spec_y().mul_req(T::spec_identity()));
}

/// For any coordinate type whose `*` is associative, scaling by `a` then by
/// `b` is scaling by `a * b`.
pub proof fn lemma_scale_composes<T: Mul<Output = T>>(p: Point<T>, a: T, b: T)
    requires
        forall|x: T, y: T, z: T| #[trigger] x.mul_spec(y).mul_spec(z) == x.mul_spec(y.mul_spec(z)),
    ensures
        p.spec_x().mul_spec(a).mul_spec(b) == p.spec_x().mul_spec(a.mul_spec(b)),
        p.spec_y().mul_spec(a).mul_spec(b) == p.spec_y().mul_spec(a.mul_spec(b)),
{
    assert(p.spec_x().mul_spec(a).mul_spec(b) == p.spec_x().mul_spec(a.mul_spec(b)));
    assert(p.spec_y().mul_spec(a).mul_spec(b) == p.spec_y().mul_spec(a.mul_spec(b)));
}

/// Over `i64`, when no product or sum overflows, the dot product is
/// symmetric: `p.dot(q) == q.dot(p)`.
pub proof fn lemma_dot_symmetric(p: Point<i64>, q: Point<i64>)
    requires
        p.spec_x().mul_req(q.spec_x()),
        p.spec_y().mul_req(q.spec_y()),
        p.spec_x().mul_spec(q.spec_x()).add_req(p.spec_y().mul_spec(q.spec_y())),
    ensures
        q.spec_x().mul_req(p.spec_x()),
        q.spec_y().mul_req(p.spec_y()),
        q.spec_x().mul_spec(p.spec_x()).add_req(q.spec_y().mul_spec(p.spec_y())),
        p.spec_x().mul_spec(q.spec_x()).add_spec(p.spec_y().mul_spec(q.spec_y())) == q.spec_x().mul_spec(
            p.spec_x(),
        ).add_spec(q.spec_y().mul_spec(p.spec_y())),
{
    let (a, b, c, d) = (p.spec_x() as int, q.spec_x() as int, p.spec_y() as int, q.spec_y() as int);
    assert(a * b == b * a) by (nonlinear_arith);
    assert(c * d == d * c) by (nonlinear_arith);
}

/// Over `i64`, moving a point by the origin (`i64::default()` is `0`) leaves
/// it where it is.
pub proof fn lemma_translate_origin(p: Point<i64>, o: Point<i64>)
    requires
        call_ensures(i64::default, (), o.spec_x()),
        call_ensures(i64::default, (), o.spec_y()),
    ensures
        p.spec_x().add_req(o.spec_x()),
        p.spec_y().add_req(o.spec_y()),
        p.spec_x().add_spec(o.spec_x()) == p.spec_x(),
        p.spec_y().add_spec(o.spec_y()) == p.spec_y(),
{
}

/// Over `i64`, when no sum overflows, moving `p` by `q` lands where moving
/// `q` by `p` does.
pub proof fn lemma_translate_commutes(p: Point<i64>, q: Point<i64>)
    requires
        p.spec_x().add_req(q.spec_x()),
        p.spec_y().add_req(q.spec_y()),
    ensures
        q.spec_x().add_req(p.spec_x()),
        q.spec_y().add_req(p.spec_y()),
        p.spec_x().add_spec(q.spec_x()) == q.spec_x().add_spec(p.spec_x()),
        p.spec_y().add_spec(q.spec_y()) == q.spec_y().add_spec(p.spec_y()),
{
}

/// Over `i64`, scaling by `i64::identity()` (one) leaves a point where it
/// is, and scaling by `a` then by `b` is scaling by `a * b`, when no product
/// overflows.
pub proof fn lemma_scale_laws(p: Point<i64>, a: i64, b: i64)
    requires
        p.spec_x().mul_req(a),
        p.spec_y().mul_req(a),
        p.spec_x().mul_spec(a).mul_req(b),
        p.spec_y().mul_spec(a).mul_req(b),
        a.mul_req(b),
    ensures
        p.spec_x().mul_req(i64::spec_identity()),
        p.spec_x().mul_spec(i64::spec_identity()) == p.spec_x(),
        p.spec_y().mul_spec(i64::spec_identity()) == p.spec_y(),
        p.spec_x().mul_req(a.mul_spec(b)),
        p.spec_y().mul_req(a.mul_spec(b)),
        p.spec_x().mul_spec(a).mul_spec(b) == p.spec_x().mul_spec(a.mul_spec(b)),
        p.spec_y().mul_spec(a).mul_spec(b) == p.spec_y().mul_spec(a.mul_spec(b)),
{
    let (x, y, ai, bi) = (p.spec_x() as int, p.spec_y() as int, a as int, b as int);
    assert((x * ai) * bi == x * (ai * bi)) by (nonlinear_arith);
    assert((y * ai) * bi == y * (ai * bi)) by (nonlinear_arith);
}


} // verus!
