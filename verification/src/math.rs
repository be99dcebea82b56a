//! Small numeric abstractions: multiplicative identity, square root,
//! arc-cosine, and polynomials with coefficients in any ring-like type.

use vstd::prelude::*;
use vstd::std_specs::ops::AddSpec;
use vstd::std_specs::ops::MulSpec;
use vstd::arithmetic::power::pow;
use std::ops::Add;
use std::ops::Mul;

verus! {

/// Types with a multiplicative identity.
pub trait Identity: Sized {
    /// The identity element, as a mathematical value.
    spec fn spec_identity() -> Self;

    /// Returns the multiplicative identity of the type.
    fn identity() -> (r: Self)
        ensures
            r == Self::spec_identity(),
    ;
}

impl Identity for u8 {
    open spec fn spec_identity() -> u8 { 1 }
    fn identity() -> (r: u8) { 1 }
}

impl Identity for u16 {
    open spec fn spec_identity() -> u16 { 1 }
    fn identity() -> (r: u16) { 1 }
}

impl Identity for u32 {
    open spec fn spec_identity() -> u32 { 1 }
    fn identity() -> (r: u32) { 1 }
}

impl Identity for u64 {
    open spec fn spec_identity() -> u64 { 1 }
    fn identity() -> (r: u64) { 1 }
}

impl Identity for usize {
    open spec fn spec_identity() -> usize { 1 }
    fn identity() -> (r: usize) { 1 }
}

impl Identity for i8 {
    open spec fn spec_identity() -> i8 { 1 }
    fn identity() -> (r: i8) { 1 }
}

impl Identity for i16 {
    open spec fn spec_identity() -> i16 { 1 }
    fn identity() -> (r: i16) { 1 }
}

impl Identity for i32 {
    open spec fn spec_identity() -> i32 { 1 }
    fn identity() -> (r: i32) { 1 }
}

impl Identity for i64 {
    open spec fn spec_identity() -> i64 { 1 }
    fn identity() -> (r: i64) { 1 }
}

impl Identity for isize {
    open spec fn spec_identity() -> isize { 1 }
    fn identity() -> (r: isize) { 1 }
}

/// Types with a square root.
pub trait Sqrt {
    type Output;

    fn sqrt(self) -> Self::Output;
}

/// Types with an arc-cosine.
pub trait ACos {
    type Output;

    fn acos(self) -> Self::Output;
}

/// A polynomial in one variable, `coeffs[i]` being the coefficient of `x^i`.
pub struct Polynomial<T> {
    coeffs: Vec<T>,
}

/// The running `(sum, power)` pair after the first `k` coefficients have been
/// folded in, starting from `(zero, one)`: each step adds `coeffs[k-1] * power`
/// to the sum and multiplies the power by `x`.
pub open spec fn eval_state<T: Add<Output = T> + Mul<Output = T>>(
    coeffs: Seq<T>,
    x: T,
    zero: T,
    one: T,
    k: nat,
) -> (T, T)
    decreases k,
{
    if k == 0 {
        (zero, one)
    } else {
        let prev = eval_state(coeffs, x, zero, one, (k - 1) as nat);
        (prev.0.add_spec(coeffs[k - 1].mul_spec(prev.1)), prev.1.mul_spec(x))
    }
}

/// Every addition and multiplication of the first `k` steps is defined
/// (no overflow for machine integers).
pub open spec fn eval_defined<T: Add<Output = T> + Mul<Output = T>>(
    coeffs: Seq<T>,
    x: T,
    zero: T,
    one: T,
    k: nat,
) -> bool
    decreases k,
{
    if k == 0 {
        true
    } else {
        let prev = eval_state(coeffs, x, zero, one, (k - 1) as nat);
        &&& eval_defined(coeffs, x, zero, one, (k - 1) as nat)
        &&& coeffs[k - 1].mul_req(prev.1)
        &&& prev.0.add_req(coeffs[k - 1].mul_spec(prev.1))
        &&& prev.1.mul_req(x)
    }
}

impl<T> Polynomial<T> {
    /// The coefficients, lowest degree first.
    pub closed spec fn spec_coeffs(&self) -> Seq<T> {
        self.coeffs@
    }

    /// Builds a polynomial from its coefficients, lowest degree first.
    pub fn new(coeffs: Vec<T>) -> (p: Self)
        ensures
            p.spec_coeffs() == coeffs@,
    {
        Polynomial { coeffs }
    }

    /// Number of coefficients held.
    pub fn degree(&self) -> (n: usize)
        ensures
            n == self.spec_coeffs().len(),
    {
        self.coeffs.len()
    }

    /// Evaluates the polynomial at `x`: the sum of `coeffs[i] * x^i`, with
    /// the sum starting at `T::default()` and the power at `T::identity()`.
    pub fn eval(&self, x: T) -> (r: T)
        where
            T: Copy + Default + Identity + Mul<Output = T> + Add<Output = T>,
        requires
            T::obeys_add_spec(),
            T::obeys_mul_spec(),
            forall|z: T| #[trigger] call_ensures(T::default, (), z) ==> eval_defined(
                self.spec_coeffs(),
                x,
                z,
                T::spec_identity(),
                self.spec_coeffs().len(),
            ),
        ensures
            exists|z: T|
                call_ensures(T::default, (), z) && r == eval_state(
                    self.spec_coeffs(),
                    x,
                    z,
                    T::spec_identity(),
                    self.spec_coeffs().len(),
                ).0,
    {
        let mut acc = T::identity();
        let mut sum = T::default();
        let ghost zero = sum;
        let n = self.coeffs.len();
        assert(call_ensures(T::default, (), zero));
        assert(eval_defined(self.coeffs@, x, zero, T::spec_identity(), n as nat));
        let mut i: usize = 0;
        while i < n
            invariant
                n == self.coeffs@.len(),
                i <= n,
                T::obeys_add_spec(),
                T::obeys_mul_spec(),
                call_ensures(T::default, (), zero),
                eval_defined(self.coeffs@, x, zero, T::spec_identity(), n as nat),
                (sum, acc) == eval_state(self.coeffs@, x, zero, T::spec_identity(), i as nat),
            decreases n - i,
        {
            proof {
                lemma_eval_defined_prefix(self.coeffs@, x, zero, T::spec_identity(), (i + 1) as nat, n as nat);
            }
            let c = self.coeffs[i];
            sum = sum + (c * acc);
            acc = acc * x;
            i = i + 1;
        }
        assert(call_ensures(T::default, (), zero) && sum == eval_state(
            self.spec_coeffs(), x, zero, T::spec_identity(), self.spec_coeffs().len()).0);
        sum
    }
}

/// Definedness of a longer evaluation implies definedness of every prefix.
pub proof fn lemma_eval_defined_prefix<T: Add<Output = T> + Mul<Output = T>>(
    coeffs: Seq<T>,
    x: T,
    zero: T,
    one: T,
    k: nat,
    n: nat,
)
    requires
        k <= n,
        eval_defined(coeffs, x, zero, one, n),
    ensures
        eval_defined(coeffs, x, zero, one, k),
    decreases n - k,
{
    if k < n {
        lemma_eval_defined_prefix(coeffs, x, zero, one, k, (n - 1) as nat);
    }
}

/// The textbook value of a polynomial: the sum of `coeffs[i] * x^i` over the
/// first `k` coefficients, in unbounded integers.
pub open spec fn poly_sum(coeffs: Seq<i64>, x: int, k: nat) -> int
    decreases k,
{
    if k == 0 {
        0
    } else {
        poly_sum(coeffs, x, (k - 1) as nat) + coeffs[k - 1] * pow(x, (k - 1) as nat)
    }
}

/// Over `i64`, when no step overflows, evaluation (from `0` and `1`, the
/// values of `i64::default()` and `i64::identity()`) yields the textbook
/// value `sum coeffs[i] * x^i`, and the running power is `x^k`.
pub proof fn lemma_eval_is_poly_sum(coeffs: Seq<i64>, x: i64, k: nat)
    requires
        k <= coeffs.len(),
        eval_defined(coeffs, x, 0i64, 1i64, k),
    ensures
        eval_state(coeffs, x, 0i64, 1i64, k).0 == poly_sum(coeffs, x as int, k),
        eval_state(coeffs, x, 0i64, 1i64, k).1 == pow(x as int, k),
    decreases k,
{
    reveal(pow);
    if k > 0 {
        let km1 = (k - 1) as nat;
        lemma_eval_is_poly_sum(coeffs, x, km1);
        let a = eval_state(coeffs, x, 0i64, 1i64, km1).1;
        assert(pow(x as int, k) == x * pow(x as int, km1));
        assert(a * x == x * a) by (nonlinear_arith);
    }
}

} // verus!
