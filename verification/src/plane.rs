//! Points of the 2-dimensional plane and parametric curves over it.

use vstd::prelude::*;
use vstd::std_specs::convert::FromSpecImpl;
use vstd::std_specs::ops::AddSpec;
use vstd::std_specs::ops::AddSpecImpl;
use vstd::std_specs::ops::MulSpec;
use vstd::std_specs::ops::MulSpecImpl;
use vstd::std_specs::ops::NegSpec;
use vstd::std_specs::ops::NegSpecImpl;
use std::ops::Add;
use std::ops::Mul;
use std::ops::Neg;

use crate::math::eval_state;
use crate::math::eval_defined;
use crate::math::Identity;
use crate::math::Polynomial;
use crate::math::Sqrt;

verus! {

/// The point `(T::default(), T::default())`.
pub fn origin<T>() -> (p: Point<T>)
    where
        T: Default,
    ensures
        call_ensures(T::default, (), p.spec_x()),
        call_ensures(T::default, (), p.spec_y()),
{
    Point { x: T::default(), y: T::default() }
}

/// 2-dimentional point.
#[derive(Copy)]
pub struct Point<T> {
    x: T,
    y: T,
}

impl<T: Copy> Clone for Point<T> {
    fn clone(&self) -> (r: Self)
        ensures
            r == *self,
    {
        *self
    }
}

impl<T> Point<T> {
    /// The first coordinate.
    pub closed spec fn spec_x(&self) -> T {
        self.x
    }

    /// The second coordinate.
    pub closed spec fn spec_y(&self) -> T {
        self.y
    }

    /// The point with the given coordinates, as a mathematical value.
    pub closed spec fn spec_new(x: T, y: T) -> Point<T> {
        Point { x, y }
    }

    /// Coordinates of a point built by `spec_new`.
    pub proof fn lemma_spec_new(x: T, y: T)
        ensures
            Self::spec_new(x, y).spec_x() == x,
            Self::spec_new(x, y).spec_y() == y,
    {
    }

    /// The first coordinate.
    pub fn x(&self) -> (r: T)
        where
            T: Copy,
        ensures
            r == self.spec_x(),
    {
        self.x
    }

    /// The second coordinate.
    pub fn y(&self) -> (r: T)
        where
            T: Copy,
        ensures
            r == self.spec_y(),
    {
        self.y
    }
}

impl<T> From<(T, T)> for Point<T> {
    fn from(val: (T, T)) -> (p: Self) {
        Point { x: val.0, y: val.1 }
    }
}

impl<T> FromSpecImpl<(T, T)> for Point<T> {
    open spec fn obeys_from_spec() -> bool {
        true
    }

    open spec fn from_spec(v: (T, T)) -> Self {
        Point::spec_new(v.0, v.1)
    }
}

impl<T> Add for Point<T>
    where
        T: Add<Output = T>,
{
    type Output = Point<T>;

    fn add(self, other: Self) -> (p: Self) {
        Point { x: self.x + other.x, y: self.y + other.y }
    }
}

impl<T> AddSpecImpl for Point<T>
    where
        T: Add<Output = T>,
{
    open spec fn obeys_add_spec() -> bool {
        T::obeys_add_spec()
    }

    open spec fn add_req(self, rhs: Self) -> bool {
        self.spec_x().add_req(rhs.spec_x()) && self.spec_y().add_req(rhs.spec_y())
    }

    open spec fn add_spec(self, rhs: Self) -> Self {
        Point::spec_new(self.spec_x().add_spec(rhs.spec_x()), self.spec_y().add_spec(rhs.spec_y()))
    }
}

impl<T> Mul<T> for Point<T>
    where
        T: Copy + Mul<Output = T>,
{
    type Output = Point<T>;

    fn mul(self, scalar: T) -> (p: Self) {
        Point { x: self.x * scalar, y: self.y * scalar }
    }
}

impl<T> MulSpecImpl<T> for Point<T>
    where
        T: Copy + Mul<Output = T>,
{
    open spec fn obeys_mul_spec() -> bool {
        T::obeys_mul_spec()
    }

    open spec fn mul_req(self, rhs: T) -> bool {
        self.spec_x().mul_req(rhs) && self.spec_y().mul_req(rhs)
    }

    open spec fn mul_spec(self, rhs: T) -> Self {
        Point::spec_new(self.spec_x().mul_spec(rhs), self.spec_y().mul_spec(rhs))
    }
}

impl<T> Neg for Point<T>
    where
        T: Neg<Output = T>,
{
    type Output = Point<T>;

    fn neg(self) -> (p: Self) {
        Point { x: self.x.neg(), y: self.y.neg() }
    }
}

impl<T> NegSpecImpl for Point<T>
    where
        T: Neg<Output = T>,
{
    open spec fn obeys_neg_spec() -> bool {
        T::obeys_neg_spec()
    }

    open spec fn neg_req(self) -> bool {
        self.spec_x().neg_req() && self.spec_y().neg_req()
    }

    open spec fn neg_spec(self) -> Self {
        Point::spec_new(self.spec_x().neg_spec(), self.spec_y().neg_spec())
    }
}

/// The quantity whose square root `Point::length` takes: `x * x + y * y`.
pub open spec fn length_arg<T: Add<Output = T> + Mul<Output = T>>(p: Point<T>) -> T {
    p.spec_x().mul_spec(p.spec_x()).add_spec(p.spec_y().mul_spec(p.spec_y()))
}

impl<T> Point<T> {
    /// Euclidean length: the square root, by `T`'s own `Sqrt`, of
    /// `x * x + y * y`.
    pub fn length(&self) -> (r: T)
        where
            T: Copy + Mul<Output = T> + Sqrt<Output = T> + Add<Output = T>,
        requires
            T::obeys_add_spec(),
            T::obeys_mul_spec(),
            self.spec_x().mul_req(self.spec_x()),
            self.spec_y().mul_req(self.spec_y()),
            self.spec_x().mul_spec(self.spec_x()).add_req(self.spec_y().mul_spec(self.spec_y())),
        ensures
            call_ensures(T::sqrt, (length_arg(*self),), r),
    {
        let a = (self.x * self.x) + (self.y * self.y);
        a.sqrt()
    }

    /// Dot product `x * other.x + y * other.y`.
    pub fn dot(self, other: Self) -> (r: T)
        where
            T: Copy + Mul<Output = T> + Add<Output = T>,
        requires
            T::obeys_add_spec(),
            T::obeys_mul_spec(),
            self.spec_x().mul_req(other.spec_x()),
            self.spec_y().mul_req(other.spec_y()),
            self.spec_x().mul_spec(other.spec_x()).add_req(self.spec_y().mul_spec(other.spec_y())),
        ensures
            r == self.spec_x().mul_spec(other.spec_x()).add_spec(
                self.spec_y().mul_spec(other.spec_y()),
            ),
    {
        (self.x * other.x) + (self.y * other.y)
    }

    /// The point moved by `other`, coordinate by coordinate.
    pub fn translate(self, other: Self) -> (r: Self)
        where
            T: Add<Output = T>,
        requires
            T::obeys_add_spec(),
            self.spec_x().add_req(other.spec_x()),
            self.spec_y().add_req(other.spec_y()),
        ensures
            r.spec_x() == self.spec_x().add_spec(other.spec_x()),
            r.spec_y() == self.spec_y().add_spec(other.spec_y()),
    {
        self + other
    }

    /// The point with both coordinates multiplied by `other`.
    pub fn scale(self, other: T) -> (r: Self)
        where
            T: Copy + Mul<Output = T>,
        requires
            T::obeys_mul_spec(),
            self.spec_x().mul_req(other),
            self.spec_y().mul_req(other),
        ensures
            r.spec_x() == self.spec_x().mul_spec(other),
            r.spec_y() == self.spec_y().mul_spec(other),
    {
        self * other
    }
}

/// A parametric curve: `t` maps to `(xfn(t), yfn(t))`.
pub struct Plane<T> {
    xfn: Polynomial<T>,
    yfn: Polynomial<T>,
}

impl<T> Plane<T> {
    /// The polynomial giving the first coordinate.
    pub closed spec fn spec_xfn(&self) -> Seq<T> {
        self.xfn.spec_coeffs()
    }

    /// The polynomial giving the second coordinate.
    pub closed spec fn spec_yfn(&self) -> Seq<T> {
        self.yfn.spec_coeffs()
    }

    /// The curve with the given coordinate polynomials.
    pub fn new(xfn: Polynomial<T>, yfn: Polynomial<T>) -> (p: Self)
        ensures
            p.spec_xfn() == xfn.spec_coeffs(),
            p.spec_yfn() == yfn.spec_coeffs(),
    {
        Plane { xfn, yfn }
    }

    /// The point of the curve at parameter `t`.
    pub fn point_for(&self, t: T) -> (p: Point<T>)
        where
            T: Copy + Default + Identity + Mul<Output = T> + Add<Output = T>,
        requires
            T::obeys_add_spec(),
            T::obeys_mul_spec(),
            forall|z: T| #[trigger] call_ensures(T::default, (), z) ==> {
                &&& eval_defined(self.spec_xfn(), t, z, T::spec_identity(), self.spec_xfn().len())
                &&& eval_defined(self.spec_yfn(), t, z, T::spec_identity(), self.spec_yfn().len())
            },
        ensures
            exists|z: T|
                call_ensures(T::default, (), z) && p.spec_x() == eval_state(
                    self.spec_xfn(),
                    t,
                    z,
                    T::spec_identity(),
                    self.spec_xfn().len(),
                ).0,
            exists|z: T|
                call_ensures(T::default, (), z) && p.spec_y() == eval_state(
                    self.spec_yfn(),
                    t,
                    z,
                    T::spec_identity(),
                    self.spec_yfn().len(),
                ).0,
    {
        Point { x: self.xfn.eval(t), y: self.yfn.eval(t) }
    }
}

} // verus!
