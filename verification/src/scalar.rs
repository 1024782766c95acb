//! The component type of vectors and matrices.
//!
//! A scalar is any copyable number type with the usual operators. Its
//! arithmetic is described in two ways. The relations (`sum_of`,
//! `product_of`, ...) hold of whatever the operator returned, for every
//! scalar type, including types whose arithmetic rounds. The `*_spec`
//! functions of the operator traits give the result as a value; an
//! operation is called exact where it returns nothing else
//! (`obeys_*_spec`). The machine integers are exact; of floating-point
//! numbers only the relations are known.

use core::ops::Add;
use core::ops::Div;
use core::ops::Mul;
use core::ops::Neg;
use core::ops::Rem;
use core::ops::Sub;
use vstd::prelude::*;
use vstd::std_specs::cmp::PartialEqSpec;
use vstd::std_specs::convert::FromSpec;
use vstd::std_specs::ops::AddSpec;
use vstd::std_specs::ops::DivSpec;
use vstd::std_specs::ops::MulSpec;
use vstd::std_specs::ops::NegSpec;
use vstd::std_specs::ops::RemSpec;
use vstd::std_specs::ops::SubSpec;

verus! {

/// A number that can be a component: copyable, comparable, closed under
/// `+ - * / %` and negation, and holding images of 0 and 1.
pub trait Scalar: Copy + PartialEq + From<i8> + Add<Output = Self> + Sub<Output = Self> + Mul<
    Output = Self,
> + Div<Output = Self> + Rem<Output = Self> + Neg<Output = Self> {

}

impl<
    T: Copy + PartialEq + From<i8> + Add<Output = T> + Sub<Output = T> + Mul<Output = T> + Div<
        Output = T,
    > + Rem<Output = T> + Neg<Output = T>,
> Scalar for T {

}

/// The scalar's zero, where conversion from `i8` is exact.
pub open spec fn zero_of<T: Scalar>() -> T {
    T::from_spec(0i8)
}

/// The scalar's one, where conversion from `i8` is exact.
pub open spec fn one_of<T: Scalar>() -> T {
    T::from_spec(1i8)
}

/// `x` is a value that converting 0 to the scalar type may give.
pub open spec fn from_zero<T: Scalar>(x: T) -> bool {
    call_ensures(T::from, (0i8,), x)
}

/// `x` is a value that converting 1 to the scalar type may give.
pub open spec fn from_one<T: Scalar>(x: T) -> bool {
    call_ensures(T::from, (1i8,), x)
}

/// `r` is a value that `a + b` may give.
pub open spec fn sum_of<T: Scalar>(a: T, b: T, r: T) -> bool {
    call_ensures(T::add, (a, b), r)
}

/// `r` is a value that `a - b` may give.
pub open spec fn difference_of<T: Scalar>(a: T, b: T, r: T) -> bool {
    call_ensures(T::sub, (a, b), r)
}

/// `r` is a value that `a * b` may give.
pub open spec fn product_of<T: Scalar>(a: T, b: T, r: T) -> bool {
    call_ensures(T::mul, (a, b), r)
}

/// `r` is a value that `a / b` may give.
pub open spec fn quotient_of<T: Scalar>(a: T, b: T, r: T) -> bool {
    call_ensures(T::div, (a, b), r)
}

/// `r` is a value that `a % b` may give.
pub open spec fn remainder_of<T: Scalar>(a: T, b: T, r: T) -> bool {
    call_ensures(T::rem, (a, b), r)
}

/// `r` is a value that `-a` may give.
pub open spec fn negation_of<T: Scalar>(a: T, r: T) -> bool {
    call_ensures(T::neg, (a,), r)
}

/// `r` is an answer that `a == b` may give.
pub open spec fn eq_answer<T: Scalar>(a: T, b: T, r: bool) -> bool {
    call_ensures(T::eq, (&a, &b), r)
}

/// Where an operation is exact, its relation holds of one value only:
/// the one that its `*_spec` function gives.
pub proof fn lemma_exact_values<T: Scalar>(a: T, b: T, r: T, e: bool)
    ensures
        T::obeys_from_spec() && from_zero(r) ==> r == zero_of::<T>(),
        T::obeys_from_spec() && from_one(r) ==> r == one_of::<T>(),
        T::obeys_add_spec() && sum_of(a, b, r) ==> r == a.add_spec(b),
        T::obeys_sub_spec() && difference_of(a, b, r) ==> r == a.sub_spec(b),
        T::obeys_mul_spec() && product_of(a, b, r) ==> r == a.mul_spec(b),
        T::obeys_div_spec() && quotient_of(a, b, r) ==> r == a.div_spec(b),
        T::obeys_rem_spec() && remainder_of(a, b, r) ==> r == a.rem_spec(b),
        T::obeys_neg_spec() && negation_of(a, r) ==> r == a.neg_spec(),
        T::obeys_eq_spec() && eq_answer(a, b, e) ==> e == a.eq_spec(&b),
{
}

/// `x` compares equal to the scalar's zero.
pub open spec fn is_zero<T: Scalar>(x: T) -> bool {
    x.eq_spec(&zero_of::<T>())
}

/// Equality with zero can be decided: `==` and conversion from `i8` are
/// exact.
pub open spec fn zero_test_exact<T: Scalar>() -> bool {
    T::obeys_eq_spec() && T::obeys_from_spec()
}

/// The scalar's zero.
pub fn zero<T: Scalar>() -> (z: T)
    ensures
        from_zero(z),
{
    T::from(0i8)
}

/// The scalar's one.
pub fn one<T: Scalar>() -> (o: T)
    ensures
        from_one(o),
{
    T::from(1i8)
}

/// `r` is an answer that the test of `x` against zero may give: what
/// `==` may return for `x` and a zero of the scalar type, and nothing but
/// `is_zero(x)` where that can be decided.
pub open spec fn zero_answer<T: Scalar>(x: T, r: bool) -> bool {
    &&& exists|z: T| from_zero(z) && #[trigger] eq_answer(x, z, r)
    &&& zero_test_exact::<T>() ==> r == is_zero(x)
}

/// `x` is told from zero: it does not compare equal to zero where that
/// can be decided, and elsewhere the zero test may say so.
pub open spec fn nonzero<T: Scalar>(x: T) -> bool {
    if zero_test_exact::<T>() {
        !is_zero(x)
    } else {
        zero_answer(x, false)
    }
}

/// Whether `x` compares equal to zero.
pub fn equals_zero<T: Scalar>(x: T) -> (b: bool)
    ensures
        zero_answer(x, b),
        !b ==> nonzero(x),
{
    let z: T = T::from(0i8);
    let b = x == z;
    assert(from_zero(z) && eq_answer(x, z, b));
    b
}

/// `a * b + c * d` can be computed: each step meets the precondition of
/// its operator, whatever the step before returned.
pub open spec fn mul_add_defined<T: Scalar>(a: T, b: T, c: T, d: T) -> bool {
    &&& a.mul_req(b)
    &&& c.mul_req(d)
    &&& forall|p: T, q: T| product_of(a, b, p) && product_of(c, d, q) ==> #[trigger] p.add_req(q)
}

/// `r` is a value that `a * b + c * d` may give.
pub open spec fn is_mul_add<T: Scalar>(a: T, b: T, c: T, d: T, r: T) -> bool {
    exists|p: T, q: T| product_of(a, b, p) && product_of(c, d, q) && #[trigger] sum_of(p, q, r)
}

/// `a * b + c * d` as a value.
pub open spec fn mul_add_of<T: Scalar>(a: T, b: T, c: T, d: T) -> T {
    a.mul_spec(b).add_spec(c.mul_spec(d))
}

/// `a * b + c * d`.
pub fn mul_add<T: Scalar>(a: T, b: T, c: T, d: T) -> (r: T)
    requires
        mul_add_defined(a, b, c, d),
    ensures
        is_mul_add(a, b, c, d, r),
        T::obeys_mul_spec() && T::obeys_add_spec() ==> r == mul_add_of(a, b, c, d),
{
    let p = a * b;
    let q = c * d;
    let r = p + q;
    assert(sum_of(p, q, r));
    r
}

/// `a * b - c * d` can be computed.
pub open spec fn mul_sub_defined<T: Scalar>(a: T, b: T, c: T, d: T) -> bool {
    &&& a.mul_req(b)
    &&& c.mul_req(d)
    &&& forall|p: T, q: T| product_of(a, b, p) && product_of(c, d, q) ==> #[trigger] p.sub_req(q)
}

/// `r` is a value that `a * b - c * d` may give.
pub open spec fn is_mul_sub<T: Scalar>(a: T, b: T, c: T, d: T, r: T) -> bool {
    exists|p: T, q: T|
        product_of(a, b, p) && product_of(c, d, q) && #[trigger] difference_of(p, q, r)
}

/// `a * b - c * d` as a value.
pub open spec fn mul_sub_of<T: Scalar>(a: T, b: T, c: T, d: T) -> T {
    a.mul_spec(b).sub_spec(c.mul_spec(d))
}

/// `a * b - c * d`.
pub fn mul_sub<T: Scalar>(a: T, b: T, c: T, d: T) -> (r: T)
    requires
        mul_sub_defined(a, b, c, d),
    ensures
        is_mul_sub(a, b, c, d, r),
        T::obeys_mul_spec() && T::obeys_sub_spec() ==> r == mul_sub_of(a, b, c, d),
{
    let p = a * b;
    let q = c * d;
    let r = p - q;
    assert(difference_of(p, q, r));
    r
}

/// `a * cos + b * sin` and `a * -sin + b * cos` can be computed.
pub open spec fn turn_defined<T: Scalar>(a: T, b: T, cos: T, sin: T) -> bool {
    &&& mul_add_defined(a, cos, b, sin)
    &&& sin.neg_req()
    &&& forall|n: T| #[trigger] negation_of(sin, n) ==> mul_add_defined(a, n, b, cos)
}

/// `(p, q)` is a pair that `(a * cos + b * sin, a * -sin + b * cos)` may
/// give: the pair `(a, b)` turned by the angle of that cosine and sine.
pub open spec fn is_turn<T: Scalar>(a: T, b: T, cos: T, sin: T, p: T, q: T) -> bool {
    &&& is_mul_add(a, cos, b, sin, p)
    &&& exists|n: T| #[trigger] negation_of(sin, n) && is_mul_add(a, n, b, cos, q)
}

/// `(a * cos + b * sin, a * -sin + b * cos)` as a value.
pub open spec fn turn_of<T: Scalar>(a: T, b: T, cos: T, sin: T) -> (T, T) {
    (mul_add_of(a, cos, b, sin), mul_add_of(a, sin.neg_spec(), b, cos))
}

/// The scalar's `+`, `*` and negation are exact.
pub open spec fn turn_exact<T: Scalar>() -> bool {
    T::obeys_add_spec() && T::obeys_mul_spec() && T::obeys_neg_spec()
}

/// The pair `(a, b)` turned by the angle with the given cosine and sine.
pub fn turn<T: Scalar>(a: T, b: T, cos: T, sin: T) -> (r: (T, T))
    requires
        turn_defined(a, b, cos, sin),
    ensures
        is_turn(a, b, cos, sin, r.0, r.1),
        turn_exact::<T>() ==> r == turn_of(a, b, cos, sin),
{
    let p = mul_add(a, cos, b, sin);
    let n = sin.neg();
    assert(negation_of(sin, n));
    let q = mul_add(a, n, b, cos);
    (p, q)
}

} // verus!
