//! Vectors of two components.

use core::ops::Add;
use core::ops::AddAssign;
use core::ops::Div;
use core::ops::DivAssign;
use core::ops::Index;
use core::ops::Mul;
use core::ops::MulAssign;
use core::ops::Neg;
use core::ops::Rem;
use core::ops::RemAssign;
use core::ops::Sub;
use core::ops::SubAssign;
use crate::scalar::Scalar;
use crate::scalar::difference_of;
use crate::scalar::eq_answer;
use crate::scalar::equals_zero;
use crate::scalar::from_zero;
use crate::scalar::is_zero;
use crate::scalar::negation_of;
use crate::scalar::nonzero;
use crate::scalar::product_of;
use crate::scalar::quotient_of;
use crate::scalar::remainder_of;
use crate::scalar::sum_of;
use crate::scalar::zero;
use crate::scalar::zero_answer;
use crate::scalar::zero_of;
use crate::scalar::zero_test_exact;
use crate::vec3::Vec3;
use crate::vec4::Vec4;
use crate::vecx::Components;
use crate::vecx::VecX;
use vstd::prelude::*;
use vstd::std_specs::cmp::PartialEqSpec;
use vstd::std_specs::convert::FromSpec;
use vstd::std_specs::ops::AddSpec;
use vstd::std_specs::ops::DivSpec;
use vstd::std_specs::ops::MulSpec;
use vstd::std_specs::ops::NegSpec;
use vstd::std_specs::ops::RemSpec;
use vstd::std_specs::ops::SubSpec;

verus! {

/// A vector of two components, `(x, y)`.
///
/// Its letters are `x y`.
#[derive(Debug)]
pub struct Vec2<T>(pub T, pub T);

impl<T: Copy> Copy for Vec2<T> {

}

impl<T: Copy> Clone for Vec2<T> {
    /// A copy of the vector.
    fn clone(&self) -> (r: Vec2<T>)
        ensures
            r == *self,
    {
        *self
    }
}

impl<T> View for Vec2<T> {
    type V = Seq<T>;

    open spec fn view(&self) -> Seq<T> {
        seq![self.0, self.1]
    }
}

impl<T: Scalar> Vec2<T> {
    /// The first component.
    pub fn x(&self) -> (r: T)
        ensures
            r == self.0,
    {
        self.0
    }

    /// The second component.
    pub fn y(&self) -> (r: T)
        ensures
            r == self.1,
    {
        self.1
    }

    /// Some component compares equal to zero.
    pub open spec fn any_zero(self) -> bool {
        is_zero(self.0) || is_zero(self.1)
    }

    /// At some position the components of `self` and of `rhs` both
    /// compare equal to zero.
    pub open spec fn any_zero_pair(self, rhs: Vec2<T>) -> bool {
        ||| is_zero(self.0) && is_zero(rhs.0)
        ||| is_zero(self.1) && is_zero(rhs.1)
    }

    /// Every component is told from zero.
    pub open spec fn no_zero(self) -> bool {
        nonzero(self.0) && nonzero(self.1)
    }

    /// At every position the component of `self` or that of `rhs` is told
    /// from zero.
    pub open spec fn no_zero_pair(self, rhs: Vec2<T>) -> bool {
        &&& nonzero(self.0) || nonzero(rhs.0)
        &&& nonzero(self.1) || nonzero(rhs.1)
    }

    /// Whether some component compares equal to zero: true only if the
    /// test of one component said so, false only if the test of every
    /// component said so.
    pub fn has_zero(&self) -> (b: bool)
        ensures
            b ==> zero_answer(self.0, true) || zero_answer(self.1, true),
            !b ==> self.no_zero(),
            zero_test_exact::<T>() ==> b == self.any_zero(),
    {
        equals_zero(self.0) || equals_zero(self.1)
    }

    /// Whether dividing `self` by `rhs` would divide zero by zero at some
    /// position: true only if the tests of one component and its divisor
    /// both said so, false only if at every position one of the two tests
    /// said otherwise.
    pub fn zero_by_zero(&self, rhs: &Vec2<T>) -> (b: bool)
        ensures
            b ==> ((zero_answer(self.0, true) && zero_answer(rhs.0, true))
                || (zero_answer(self.1, true) && zero_answer(rhs.1, true))),
            !b ==> self.no_zero_pair(*rhs),
            zero_test_exact::<T>() ==> b == self.any_zero_pair(*rhs),
    {
        (equals_zero(self.0) && equals_zero(rhs.0))
            || (equals_zero(self.1) && equals_zero(rhs.1))
    }

    /// `factor * v`, with the scalar on the left of each product.
    pub fn scale(factor: T, v: Vec2<T>) -> (r: Vec2<T>)
        requires
            factor.mul_req(v.0),
            factor.mul_req(v.1),
        ensures
            product_of(factor, v.0, r.0),
            product_of(factor, v.1, r.1),
    {
        Vec2(factor * v.0, factor * v.1)
    }
}

impl<T: Scalar> Components for Vec2<T> {
    type Scalar = T;

    open spec fn elems(&self) -> Seq<T> {
        self@
    }

    open spec fn arity() -> nat {
        2
    }

    open spec fn letter_index(c: char) -> Option<int> {
        if c == 'x' {
            Some(0int)
        } else if c == 'y' {
            Some(1int)
        } else {
            None
        }
    }

    proof fn lemma_shape(&self) {
    }

    fn size() -> (n: usize) {
        2
    }

    fn has_comp(component: char) -> (b: bool) {
        match component {
            'x' | 'y' => true,
            _ => false,
        }
    }

    fn comp(&self, component: char) -> (r: T) {
        match component {
            'x' => self.0,
            _ => self.1,
        }
    }

    fn at(&self, idx: usize) -> (r: T) {
        match idx {
            0 => self.0,
            1 => self.1,
            _ => zero::<T>(),
        }
    }

    open spec fn normalizes(i: int) -> bool {
        true
    }

    fn normalized_by(&self, magnitude: T) -> (r: Self) {
        assert(self.elems()[0] == self.0);
        assert(self.elems()[1] == self.1);
        let r = Vec2(self.0 / magnitude, self.1 / magnitude);
        assert(r.elems()[0] == r.0);
        assert(r.elems()[1] == r.1);
        r
    }

    fn from_values(values: Vec<T>) -> (r: Self) {
        let c0: T = if values.len() > 0 {
            values[0]
        } else {
            zero::<T>()
        };
        let c1: T = if values.len() > 1 {
            values[1]
        } else {
            zero::<T>()
        };
        Vec2(c0, c1)
    }
}

impl<T: Scalar> VecX for Vec2<T> {
}

impl<T: Scalar> vstd::std_specs::ops::NegSpecImpl for Vec2<T> {
    open spec fn obeys_neg_spec() -> bool {
        T::obeys_neg_spec()
    }

    open spec fn neg_req(self) -> bool {
        self.0.neg_req() && self.1.neg_req()
    }

    open spec fn neg_spec(self) -> Vec2<T> {
        Vec2(self.0.neg_spec(), self.1.neg_spec())
    }
}

impl<T: Scalar> Neg for Vec2<T> {
    type Output = Vec2<T>;

    /// Each component negated.
    fn neg(self) -> (r: Vec2<T>)
        ensures
            negation_of(self.0, r.0),
            negation_of(self.1, r.1),
    {
        Vec2(self.0.neg(), self.1.neg())
    }
}

impl<T: Scalar> vstd::std_specs::ops::AddSpecImpl<Vec2<T>> for Vec2<T> {
    open spec fn obeys_add_spec() -> bool {
        T::obeys_add_spec()
    }

    open spec fn add_req(self, rhs: Vec2<T>) -> bool {
        self.0.add_req(rhs.0) && self.1.add_req(rhs.1)
    }

    open spec fn add_spec(self, rhs: Vec2<T>) -> Vec2<T> {
        Vec2(self.0.add_spec(rhs.0), self.1.add_spec(rhs.1))
    }
}

impl<T: Scalar> Add<Vec2<T>> for Vec2<T> {
    type Output = Vec2<T>;

    /// The sum of the components in each position.
    fn add(self, rhs: Vec2<T>) -> (r: Vec2<T>)
        ensures
            sum_of(self.0, rhs.0, r.0),
            sum_of(self.1, rhs.1, r.1),
    {
        Vec2(self.0 + rhs.0, self.1 + rhs.1)
    }
}

impl<T: Scalar> AddAssign<Vec2<T>> for Vec2<T> {
    /// Replaces each component by its sum with the component of `rhs`
    /// in its place.
    fn add_assign(&mut self, rhs: Vec2<T>)
        requires
            old(self).add_req(rhs),
        ensures
            sum_of(old(self).0, rhs.0, final(self).0),
            sum_of(old(self).1, rhs.1, final(self).1),
            T::obeys_add_spec() ==> *final(self) == old(self).add_spec(rhs),
    {
        let c0: T = self.0 + rhs.0;
        let c1: T = self.1 + rhs.1;
        self.0 = c0;
        self.1 = c1;
    }
}

impl<T: Scalar> vstd::std_specs::ops::SubSpecImpl<Vec2<T>> for Vec2<T> {
    open spec fn obeys_sub_spec() -> bool {
        T::obeys_sub_spec()
    }

    open spec fn sub_req(self, rhs: Vec2<T>) -> bool {
        self.0.sub_req(rhs.0) && self.1.sub_req(rhs.1)
    }

    open spec fn sub_spec(self, rhs: Vec2<T>) -> Vec2<T> {
        Vec2(self.0.sub_spec(rhs.0), self.1.sub_spec(rhs.1))
    }
}

impl<T: Scalar> Sub<Vec2<T>> for Vec2<T> {
    type Output = Vec2<T>;

    /// The difference of the components in each position.
    fn sub(self, rhs: Vec2<T>) -> (r: Vec2<T>)
        ensures
            difference_of(self.0, rhs.0, r.0),
            difference_of(self.1, rhs.1, r.1),
    {
        Vec2(self.0 - rhs.0, self.1 - rhs.1)
    }
}

impl<T: Scalar> SubAssign<Vec2<T>> for Vec2<T> {
    /// Replaces each component by its difference with the component of `rhs`
    /// in its place.
    fn sub_assign(&mut self, rhs: Vec2<T>)
        requires
            old(self).sub_req(rhs),
        ensures
            difference_of(old(self).0, rhs.0, final(self).0),
            difference_of(old(self).1, rhs.1, final(self).1),
            T::obeys_sub_spec() ==> *final(self) == old(self).sub_spec(rhs),
    {
        let c0: T = self.0 - rhs.0;
        let c1: T = self.1 - rhs.1;
        self.0 = c0;
        self.1 = c1;
    }
}

impl<T: Scalar> vstd::std_specs::ops::MulSpecImpl<T> for Vec2<T> {
    open spec fn obeys_mul_spec() -> bool {
        T::obeys_mul_spec()
    }

    open spec fn mul_req(self, rhs: T) -> bool {
        self.0.mul_req(rhs) && self.1.mul_req(rhs)
    }

    open spec fn mul_spec(self, rhs: T) -> Vec2<T> {
        Vec2(self.0.mul_spec(rhs), self.1.mul_spec(rhs))
    }
}

impl<T: Scalar> Mul<T> for Vec2<T> {
    type Output = Vec2<T>;

    /// The product of each component and the scalar.
    fn mul(self, rhs: T) -> (r: Vec2<T>)
        ensures
            product_of(self.0, rhs, r.0),
            product_of(self.1, rhs, r.1),
    {
        Vec2(self.0 * rhs, self.1 * rhs)
    }
}

impl<T: Scalar> MulAssign<T> for Vec2<T> {
    /// Replaces each component by its product with the scalar.
    fn mul_assign(&mut self, rhs: T)
        requires
            old(self).mul_req(rhs),
        ensures
            product_of(old(self).0, rhs, final(self).0),
            product_of(old(self).1, rhs, final(self).1),
            T::obeys_mul_spec() ==> *final(self) == old(self).mul_spec(rhs),
    {
        let c0: T = self.0 * rhs;
        let c1: T = self.1 * rhs;
        self.0 = c0;
        self.1 = c1;
    }
}

impl<T: Scalar> vstd::std_specs::ops::MulSpecImpl<Vec2<T>> for Vec2<T> {
    open spec fn obeys_mul_spec() -> bool {
        T::obeys_mul_spec()
    }

    open spec fn mul_req(self, rhs: Vec2<T>) -> bool {
        self.0.mul_req(rhs.0) && self.1.mul_req(rhs.1)
    }

    open spec fn mul_spec(self, rhs: Vec2<T>) -> Vec2<T> {
        Vec2(self.0.mul_spec(rhs.0), self.1.mul_spec(rhs.1))
    }
}

impl<T: Scalar> Mul<Vec2<T>> for Vec2<T> {
    type Output = Vec2<T>;

    /// The product of the components in each position.
    fn mul(self, rhs: Vec2<T>) -> (r: Vec2<T>)
        ensures
            product_of(self.0, rhs.0, r.0),
            product_of(self.1, rhs.1, r.1),
    {
        Vec2(self.0 * rhs.0, self.1 * rhs.1)
    }
}

impl<T: Scalar> MulAssign<Vec2<T>> for Vec2<T> {
    /// Replaces each component by its product with the component of `rhs`
    /// in its place.
    fn mul_assign(&mut self, rhs: Vec2<T>)
        requires
            old(self).mul_req(rhs),
        ensures
            product_of(old(self).0, rhs.0, final(self).0),
            product_of(old(self).1, rhs.1, final(self).1),
            T::obeys_mul_spec() ==> *final(self) == old(self).mul_spec(rhs),
    {
        let c0: T = self.0 * rhs.0;
        let c1: T = self.1 * rhs.1;
        self.0 = c0;
        self.1 = c1;
    }
}

impl<T: Scalar> vstd::std_specs::ops::DivSpecImpl<T> for Vec2<T> {
    open spec fn obeys_div_spec() -> bool {
        T::obeys_div_spec()
    }

    open spec fn div_req(self, rhs: T) -> bool {
        self.0.div_req(rhs) && self.1.div_req(rhs) && (self.no_zero() || nonzero(rhs))
    }

    open spec fn div_spec(self, rhs: T) -> Vec2<T> {
        Vec2(self.0.div_spec(rhs), self.1.div_spec(rhs))
    }
}

impl<T: Scalar> Div<T> for Vec2<T> {
    type Output = Vec2<T>;

    /// The quotient of each component and the scalar.
    /// No position may hold zero over zero. A component that is not zero
    /// may be divided by zero, where the scalar type allows that.
    fn div(self, rhs: T) -> (r: Vec2<T>)
        ensures
            quotient_of(self.0, rhs, r.0),
            quotient_of(self.1, rhs, r.1),
    {
        Vec2(self.0 / rhs, self.1 / rhs)
    }
}

impl<T: Scalar> DivAssign<T> for Vec2<T> {
    /// Replaces each component by its quotient with the scalar.
    /// No position may hold zero over zero. A component that is not zero
    /// may be divided by zero, where the scalar type allows that.
    fn div_assign(&mut self, rhs: T)
        requires
            old(self).div_req(rhs),
        ensures
            quotient_of(old(self).0, rhs, final(self).0),
            quotient_of(old(self).1, rhs, final(self).1),
            T::obeys_div_spec() ==> *final(self) == old(self).div_spec(rhs),
    {
        let c0: T = self.0 / rhs;
        let c1: T = self.1 / rhs;
        self.0 = c0;
        self.1 = c1;
    }
}

impl<T: Scalar> vstd::std_specs::ops::DivSpecImpl<Vec2<T>> for Vec2<T> {
    open spec fn obeys_div_spec() -> bool {
        T::obeys_div_spec()
    }

    open spec fn div_req(self, rhs: Vec2<T>) -> bool {
        self.0.div_req(rhs.0) && self.1.div_req(rhs.1) && self.no_zero_pair(rhs)
    }

    open spec fn div_spec(self, rhs: Vec2<T>) -> Vec2<T> {
        Vec2(self.0.div_spec(rhs.0), self.1.div_spec(rhs.1))
    }
}

impl<T: Scalar> Div<Vec2<T>> for Vec2<T> {
    type Output = Vec2<T>;

    /// The quotient of the components in each position.
    /// No position may hold zero over zero. A component that is not zero
    /// may be divided by zero, where the scalar type allows that.
    fn div(self, rhs: Vec2<T>) -> (r: Vec2<T>)
        ensures
            quotient_of(self.0, rhs.0, r.0),
            quotient_of(self.1, rhs.1, r.1),
    {
        Vec2(self.0 / rhs.0, self.1 / rhs.1)
    }
}

impl<T: Scalar> DivAssign<Vec2<T>> for Vec2<T> {
    /// Replaces each component by its quotient with the component of `rhs`
    /// in its place.
    /// No position may hold zero over zero. A component that is not zero
    /// may be divided by zero, where the scalar type allows that.
    fn div_assign(&mut self, rhs: Vec2<T>)
        requires
            old(self).div_req(rhs),
        ensures
            quotient_of(old(self).0, rhs.0, final(self).0),
            quotient_of(old(self).1, rhs.1, final(self).1),
            T::obeys_div_spec() ==> *final(self) == old(self).div_spec(rhs),
    {
        let c0: T = self.0 / rhs.0;
        let c1: T = self.1 / rhs.1;
        self.0 = c0;
        self.1 = c1;
    }
}

impl<T: Scalar> vstd::std_specs::ops::RemSpecImpl<T> for Vec2<T> {
    open spec fn obeys_rem_spec() -> bool {
        T::obeys_rem_spec()
    }

    open spec fn rem_req(self, rhs: T) -> bool {
        self.0.rem_req(rhs) && self.1.rem_req(rhs) && nonzero(rhs)
    }

    open spec fn rem_spec(self, rhs: T) -> Vec2<T> {
        Vec2(self.0.rem_spec(rhs), self.1.rem_spec(rhs))
    }
}

impl<T: Scalar> Rem<T> for Vec2<T> {
    type Output = Vec2<T>;

    /// The remainder of each component and the scalar.
    /// No divisor may be zero, whatever the other components hold.
    fn rem(self, rhs: T) -> (r: Vec2<T>)
        ensures
            remainder_of(self.0, rhs, r.0),
            remainder_of(self.1, rhs, r.1),
    {
        Vec2(self.0 % rhs, self.1 % rhs)
    }
}

impl<T: Scalar> RemAssign<T> for Vec2<T> {
    /// Replaces each component by its remainder with the scalar.
    /// No divisor may be zero, whatever the other components hold.
    fn rem_assign(&mut self, rhs: T)
        requires
            old(self).rem_req(rhs),
        ensures
            remainder_of(old(self).0, rhs, final(self).0),
            remainder_of(old(self).1, rhs, final(self).1),
            T::obeys_rem_spec() ==> *final(self) == old(self).rem_spec(rhs),
    {
        let c0: T = self.0 % rhs;
        let c1: T = self.1 % rhs;
        self.0 = c0;
        self.1 = c1;
    }
}

impl<T: Scalar> vstd::std_specs::ops::RemSpecImpl<Vec2<T>> for Vec2<T> {
    open spec fn obeys_rem_spec() -> bool {
        T::obeys_rem_spec()
    }

    open spec fn rem_req(self, rhs: Vec2<T>) -> bool {
        self.0.rem_req(rhs.0) && self.1.rem_req(rhs.1) && rhs.no_zero()
    }

    open spec fn rem_spec(self, rhs: Vec2<T>) -> Vec2<T> {
        Vec2(self.0.rem_spec(rhs.0), self.1.rem_spec(rhs.1))
    }
}

impl<T: Scalar> Rem<Vec2<T>> for Vec2<T> {
    type Output = Vec2<T>;

    /// The remainder of the components in each position.
    /// No divisor may be zero, whatever the other components hold.
    fn rem(self, rhs: Vec2<T>) -> (r: Vec2<T>)
        ensures
            remainder_of(self.0, rhs.0, r.0),
            remainder_of(self.1, rhs.1, r.1),
    {
        Vec2(self.0 % rhs.0, self.1 % rhs.1)
    }
}

impl<T: Scalar> RemAssign<Vec2<T>> for Vec2<T> {
    /// Replaces each component by its remainder with the component of `rhs`
    /// in its place.
    /// No divisor may be zero, whatever the other components hold.
    fn rem_assign(&mut self, rhs: Vec2<T>)
        requires
            old(self).rem_req(rhs),
        ensures
            remainder_of(old(self).0, rhs.0, final(self).0),
            remainder_of(old(self).1, rhs.1, final(self).1),
            T::obeys_rem_spec() ==> *final(self) == old(self).rem_spec(rhs),
    {
        let c0: T = self.0 % rhs.0;
        let c1: T = self.1 % rhs.1;
        self.0 = c0;
        self.1 = c1;
    }
}

impl<T: Scalar> vstd::std_specs::cmp::PartialEqSpecImpl for Vec2<T> {
    open spec fn obeys_eq_spec() -> bool {
        T::obeys_eq_spec()
    }

    open spec fn eq_spec(&self, other: &Vec2<T>) -> bool {
        self.0.eq_spec(&other.0) && self.1.eq_spec(&other.1)
    }
}

impl<T: Scalar> PartialEq for Vec2<T> {
    /// Whether the components in each position compare equal: true only
    /// if `==` said so at every position, false only if it said otherwise
    /// at one.
    fn eq(&self, other: &Vec2<T>) -> (r: bool)
        ensures
            r ==> eq_answer(self.0, other.0, true) && eq_answer(self.1, other.1, true),
            !r ==> eq_answer(self.0, other.0, false) || eq_answer(self.1, other.1, false),
    {
        self.0 == other.0 && self.1 == other.1
    }
}

impl<T: Scalar + Eq> Eq for Vec2<T> {

}

impl<T: Scalar> vstd::std_specs::core::IndexSpecImpl<usize> for Vec2<T> {
    open spec fn index_req(&self, index: &usize) -> bool {
        *index < 2
    }
}

impl<T: Scalar> Index<usize> for Vec2<T> {
    type Output = T;

    /// The component at a position.
    fn index(&self, idx: usize) -> (r: &T)
        ensures
            *r == self@[idx as int],
    {
        match idx {
            0 => &self.0,
            _ => &self.1,
        }
    }
}

impl<T: Scalar> vstd::std_specs::convert::FromSpecImpl<T> for Vec2<T> {
    open spec fn obeys_from_spec() -> bool {
        true
    }

    open spec fn from_spec(f: T) -> Vec2<T> {
        Vec2(f, f)
    }
}

impl<T: Scalar> From<T> for Vec2<T> {
    /// The vector with `f` in every component.
    fn from(f: T) -> (r: Vec2<T>) {
        Vec2(f, f)
    }
}

impl<T: Scalar> vstd::std_specs::convert::FromSpecImpl<Vec<T>> for Vec2<T> {
    open spec fn obeys_from_spec() -> bool {
        T::obeys_from_spec()
    }

    open spec fn from_spec(values: Vec<T>) -> Vec2<T> {
        Vec2(
            if values@.len() > 0 {
                values@[0]
            } else {
                zero_of::<T>()
            },
            if values@.len() > 1 {
                values@[1]
            } else {
                zero_of::<T>()
            },
        )
    }
}

impl<T: Scalar> From<Vec<T>> for Vec2<T> {
    /// The vector of the first values of the list, with zero where the
    /// list is too short.
    fn from(values: Vec<T>) -> (r: Vec2<T>)
        ensures
            values@.len() > 0 ==> r.0 == values@[0],
            values@.len() <= 0 ==> from_zero(r.0),
            values@.len() > 1 ==> r.1 == values@[1],
            values@.len() <= 1 ==> from_zero(r.1),
    {
        let r = Self::from_values(values);
        assert(r.elems()[0] == r.0);
        assert(r.elems()[1] == r.1);
        r
    }
}

impl<T: Scalar> vstd::std_specs::convert::FromSpecImpl<Vec3<T>> for Vec2<T> {
    open spec fn obeys_from_spec() -> bool {
        true
    }

    open spec fn from_spec(v: Vec3<T>) -> Vec2<T> {
        Vec2(v.0, v.1)
    }
}

impl<T: Scalar> From<Vec3<T>> for Vec2<T> {
    /// The first two components of `v`.
    fn from(v: Vec3<T>) -> (r: Vec2<T>) {
        Vec2(v.0, v.1)
    }
}

impl<T: Scalar> vstd::std_specs::convert::FromSpecImpl<Vec4<T>> for Vec2<T> {
    open spec fn obeys_from_spec() -> bool {
        true
    }

    open spec fn from_spec(v: Vec4<T>) -> Vec2<T> {
        Vec2(v.0, v.1)
    }
}

impl<T: Scalar> From<Vec4<T>> for Vec2<T> {
    /// The first two components of `v`.
    fn from(v: Vec4<T>) -> (r: Vec2<T>) {
        Vec2(v.0, v.1)
    }
}

} // verus!
