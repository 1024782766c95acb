//! Vectors of four components.

use core::ops::Add;
use core::ops::AddAssign;
use core::ops::Div;
use core::ops::DivAssign;
use core::ops::Index;
use core::ops::Mul;
use core::ops::MulAssign;
use core::ops::Neg;
use core::ops::Rem;
use core::ops::RemAssign;
use core::ops::Sub;
use core::ops::SubAssign;
use crate::mat::Matrix;
use crate::scalar::Scalar;
use crate::scalar::difference_of;
use crate::scalar::eq_answer;
use crate::scalar::equals_zero;
use crate::scalar::from_zero;
use crate::scalar::is_turn;
use crate::scalar::is_zero;
use crate::scalar::negation_of;
use crate::scalar::nonzero;
use crate::scalar::product_of;
use crate::scalar::quotient_of;
use crate::scalar::remainder_of;
use crate::scalar::sum_of;
use crate::scalar::turn;
use crate::scalar::turn_defined;
use crate::scalar::turn_exact;
use crate::scalar::turn_of;
use crate::scalar::zero;
use crate::scalar::zero_answer;
use crate::scalar::zero_of;
use crate::scalar::zero_test_exact;
use crate::vec2::Vec2;
use crate::vec3::Vec3;
use crate::vecx::Components;
use crate::vecx::VecX;
use vstd::prelude::*;
use vstd::std_specs::cmp::PartialEqSpec;
use vstd::std_specs::convert::FromSpec;
use vstd::std_specs::ops::AddSpec;
use vstd::std_specs::ops::DivSpec;
use vstd::std_specs::ops::MulSpec;
use vstd::std_specs::ops::NegSpec;
use vstd::std_specs::ops::RemSpec;
use vstd::std_specs::ops::SubSpec;

verus! {

/// A vector of four components, `(x, y, z, w)`.
///
/// A component is named by its letter or, read as a colour, by the letter
/// of its channel: `r g b a` name the same places as `x y z w`.
#[derive(Debug)]
pub struct Vec4<T>(pub T, pub T, pub T, pub T);

impl<T: Copy> Copy for Vec4<T> {

}

impl<T: Copy> Clone for Vec4<T> {
    /// A copy of the vector.
    fn clone(&self) -> (r: Vec4<T>)
        ensures
            r == *self,
    {
        *self
    }
}

impl<T> View for Vec4<T> {
    type V = Seq<T>;

    open spec fn view(&self) -> Seq<T> {
        seq![self.0, self.1, self.2, self.3]
    }
}

impl<T: Scalar> Vec4<T> {
    /// The first component.
    pub fn x(&self) -> (r: T)
        ensures
            r == self.0,
    {
        self.0
    }

    /// The second component.
    pub fn y(&self) -> (r: T)
        ensures
            r == self.1,
    {
        self.1
    }

    /// The third component.
    pub fn z(&self) -> (r: T)
        ensures
            r == self.2,
    {
        self.2
    }

    /// The fourth component.
    pub fn w(&self) -> (r: T)
        ensures
            r == self.3,
    {
        self.3
    }

    /// The first component, read as a colour channel.
    pub fn r(&self) -> (r: T)
        ensures
            r == self.0,
    {
        self.0
    }

    /// The second component, read as a colour channel.
    pub fn g(&self) -> (r: T)
        ensures
            r == self.1,
    {
        self.1
    }

    /// The third component, read as a colour channel.
    pub fn b(&self) -> (r: T)
        ensures
            r == self.2,
    {
        self.2
    }

    /// The fourth component, read as a colour channel.
    pub fn a(&self) -> (r: T)
        ensures
            r == self.3,
    {
        self.3
    }

    /// Some component compares equal to zero.
    pub open spec fn any_zero(self) -> bool {
        is_zero(self.0) || is_zero(self.1) || is_zero(self.2) || is_zero(self.3)
    }

    /// At some position the components of `self` and of `rhs` both
    /// compare equal to zero.
    pub open spec fn any_zero_pair(self, rhs: Vec4<T>) -> bool {
        ||| is_zero(self.0) && is_zero(rhs.0)
        ||| is_zero(self.1) && is_zero(rhs.1)
        ||| is_zero(self.2) && is_zero(rhs.2)
        ||| is_zero(self.3) && is_zero(rhs.3)
    }

    /// Every component is told from zero.
    pub open spec fn no_zero(self) -> bool {
        nonzero(self.0) && nonzero(self.1) && nonzero(self.2) && nonzero(self.3)
    }

    /// At every position the component of `self` or that of `rhs` is told
    /// from zero.
    pub open spec fn no_zero_pair(self, rhs: Vec4<T>) -> bool {
        &&& nonzero(self.0) || nonzero(rhs.0)
        &&& nonzero(self.1) || nonzero(rhs.1)
        &&& nonzero(self.2) || nonzero(rhs.2)
        &&& nonzero(self.3) || nonzero(rhs.3)
    }

    /// Whether some component compares equal to zero: true only if the
    /// test of one component said so, false only if the test of every
    /// component said so.
    pub fn has_zero(&self) -> (b: bool)
        ensures
            b ==> (zero_answer(self.0, true)
                || zero_answer(self.1, true)
                || zero_answer(self.2, true)
                || zero_answer(self.3, true)),
            !b ==> self.no_zero(),
            zero_test_exact::<T>() ==> b == self.any_zero(),
    {
        equals_zero(self.0) || equals_zero(self.1) || equals_zero(self.2) || equals_zero(self.3)
    }

    /// Whether dividing `self` by `rhs` would divide zero by zero at some
    /// position: true only if the tests of one component and its divisor
    /// both said so, false only if at every position one of the two tests
    /// said otherwise.
    pub fn zero_by_zero(&self, rhs: &Vec4<T>) -> (b: bool)
        ensures
            b ==> ((zero_answer(self.0, true) && zero_answer(rhs.0, true))
                || (zero_answer(self.1, true) && zero_answer(rhs.1, true))
                || (zero_answer(self.2, true) && zero_answer(rhs.2, true))
                || (zero_answer(self.3, true) && zero_answer(rhs.3, true))),
            !b ==> self.no_zero_pair(*rhs),
            zero_test_exact::<T>() ==> b == self.any_zero_pair(*rhs),
    {
        (equals_zero(self.0) && equals_zero(rhs.0))
            || (equals_zero(self.1) && equals_zero(rhs.1))
            || (equals_zero(self.2) && equals_zero(rhs.2))
            || (equals_zero(self.3) && equals_zero(rhs.3))
    }

    /// `factor * v`, with the scalar on the left of each product.
    pub fn scale(factor: T, v: Vec4<T>) -> (r: Vec4<T>)
        requires
            factor.mul_req(v.0),
            factor.mul_req(v.1),
            factor.mul_req(v.2),
            factor.mul_req(v.3),
        ensures
            product_of(factor, v.0, r.0),
            product_of(factor, v.1, r.1),
            product_of(factor, v.2, r.2),
            product_of(factor, v.3, r.3),
    {
        Vec4(factor * v.0, factor * v.1, factor * v.2, factor * v.3)
    }

    /// The rotation about the x axis can be computed.
    pub open spec fn rot_x_defined(self, cos: T, sin: T) -> bool {
        turn_defined(self.1, self.2, cos, sin)
    }

    /// `r` is a vector that rotating `self` about the x axis may give:
    /// `x` stays, and `(y, z)` is turned. The fourth component stays.
    pub open spec fn is_rot_x(self, cos: T, sin: T, r: Vec4<T>) -> bool {
        &&& r.0 == self.0
        &&& is_turn(self.1, self.2, cos, sin, r.1, r.2)
        &&& r.3 == self.3
    }

    /// `self` rotated about the x axis, as a value.
    pub open spec fn rot_x_of(self, cos: T, sin: T) -> Vec4<T> {
        let t = turn_of(self.1, self.2, cos, sin);
        Vec4(self.0, t.0, t.1, self.3)
    }

    /// The left-handed rotation about the x axis by the angle with the
    /// given cosine and sine: `y' = y * cos + z * sin` and
    /// `z' = y * -sin + z * cos`. The fourth component stays.
    pub fn rot_x(&self, cos: T, sin: T) -> (r: Vec4<T>)
        requires
            self.rot_x_defined(cos, sin),
        ensures
            self.is_rot_x(cos, sin, r),
            turn_exact::<T>() ==> r == self.rot_x_of(cos, sin),
    {
        let t = turn(self.1, self.2, cos, sin);
        Vec4(self.0, t.0, t.1, self.3)
    }

    /// The rotation about the y axis can be computed.
    pub open spec fn rot_y_defined(self, cos: T, sin: T) -> bool {
        turn_defined(self.2, self.0, cos, sin)
    }

    /// `r` is a vector that rotating `self` about the y axis may give:
    /// `y` stays, and `(z, x)` is turned. The fourth component stays.
    pub open spec fn is_rot_y(self, cos: T, sin: T, r: Vec4<T>) -> bool {
        &&& r.1 == self.1
        &&& is_turn(self.2, self.0, cos, sin, r.2, r.0)
        &&& r.3 == self.3
    }

    /// `self` rotated about the y axis, as a value.
    pub open spec fn rot_y_of(self, cos: T, sin: T) -> Vec4<T> {
        let t = turn_of(self.2, self.0, cos, sin);
        Vec4(t.1, self.1, t.0, self.3)
    }

    /// The left-handed rotation about the y axis by the angle with the
    /// given cosine and sine: `z' = z * cos + x * sin` and
    /// `x' = z * -sin + x * cos`. The fourth component stays.
    pub fn rot_y(&self, cos: T, sin: T) -> (r: Vec4<T>)
        requires
            self.rot_y_defined(cos, sin),
        ensures
            self.is_rot_y(cos, sin, r),
            turn_exact::<T>() ==> r == self.rot_y_of(cos, sin),
    {
        let t = turn(self.2, self.0, cos, sin);
        Vec4(t.1, self.1, t.0, self.3)
    }

    /// The rotation about the z axis can be computed.
    pub open spec fn rot_z_defined(self, cos: T, sin: T) -> bool {
        turn_defined(self.0, self.1, cos, sin)
    }

    /// `r` is a vector that rotating `self` about the z axis may give:
    /// `z` stays, and `(x, y)` is turned. The fourth component stays.
    pub open spec fn is_rot_z(self, cos: T, sin: T, r: Vec4<T>) -> bool {
        &&& r.2 == self.2
        &&& is_turn(self.0, self.1, cos, sin, r.0, r.1)
        &&& r.3 == self.3
    }

    /// `self` rotated about the z axis, as a value.
    pub open spec fn rot_z_of(self, cos: T, sin: T) -> Vec4<T> {
        let t = turn_of(self.0, self.1, cos, sin);
        Vec4(t.0, t.1, self.2, self.3)
    }

    /// The left-handed rotation about the z axis by the angle with the
    /// given cosine and sine: `x' = x * cos + y * sin` and
    /// `y' = x * -sin + y * cos`. The fourth component stays.
    pub fn rot_z(&self, cos: T, sin: T) -> (r: Vec4<T>)
        requires
            self.rot_z_defined(cos, sin),
        ensures
            self.is_rot_z(cos, sin, r),
            turn_exact::<T>() ==> r == self.rot_z_of(cos, sin),
    {
        let t = turn(self.0, self.1, cos, sin);
        Vec4(t.0, t.1, self.2, self.3)
    }

    /// The rotations about the x, y and z axes, in that order, can all be
    /// computed, whatever the one before returned.
    pub open spec fn rot_defined(self, cos: Vec4<T>, sin: Vec4<T>) -> bool {
        &&& self.rot_x_defined(cos.0, sin.0)
        &&& forall|r1: Vec4<T>| #[trigger]
            self.is_rot_x(cos.0, sin.0, r1) ==> {
                &&& r1.rot_y_defined(cos.1, sin.1)
                &&& forall|r2: Vec4<T>| #[trigger]
                    r1.is_rot_y(cos.1, sin.1, r2) ==> r2.rot_z_defined(cos.2, sin.2)
            }
    }

    /// `r` is a vector that rotating `self` about x, then y, then z may
    /// give.
    pub open spec fn is_rot(self, cos: Vec4<T>, sin: Vec4<T>, r: Vec4<T>) -> bool {
        exists|r1: Vec4<T>, r2: Vec4<T>|
            {
                &&& self.is_rot_x(cos.0, sin.0, r1)
                &&& #[trigger] r1.is_rot_y(cos.1, sin.1, r2)
                &&& r2.is_rot_z(cos.2, sin.2, r)
            }
    }

    /// `self` rotated about x, then y, then z, as a value.
    pub open spec fn rot_of(self, cos: Vec4<T>, sin: Vec4<T>) -> Vec4<T> {
        self.rot_x_of(cos.0, sin.0).rot_y_of(cos.1, sin.1).rot_z_of(cos.2, sin.2)
    }

    /// The rotation about the x axis, then the y axis, then the z axis,
    /// each by the angle whose cosine and sine stand in that component of
    /// `cos` and `sin`.
    pub fn rot(&self, cos: &Vec4<T>, sin: &Vec4<T>) -> (r: Vec4<T>)
        requires
            self.rot_defined(*cos, *sin),
        ensures
            self.is_rot(*cos, *sin, r),
            turn_exact::<T>() ==> r == self.rot_of(*cos, *sin),
    {
        let r1 = self.rot_x(cos.0, sin.0);
        let r2 = r1.rot_y(cos.1, sin.1);
        let r = r2.rot_z(cos.2, sin.2);
        assert(self.is_rot_x(cos.0, sin.0, r1) && r1.is_rot_y(cos.1, sin.1, r2));
        assert(r2.is_rot_z(cos.2, sin.2, r));
        r
    }

    /// `mat` is a single column or a single row of four entries.
    pub open spec fn fits(mat: &Matrix<T>) -> bool {
        ||| mat.spec_rows() == 4 && mat.spec_cols() == 1
        ||| mat.spec_rows() == 1 && mat.spec_cols() == 4
    }

    /// Whether `mat` is a single column or a single row of four entries.
    pub fn can_be_from(mat: &Matrix<T>) -> (b: bool)
        ensures
            b == Self::fits(mat),
    {
        (mat.rows() == 4 && mat.cols() == 1) || (mat.rows() == 1 && mat.cols() == 4)
    }

    /// The vector of the entries of `mat`, a single column or a single row
    /// of four entries.
    pub fn from_matrix(mat: &Matrix<T>) -> (r: Vec4<T>)
        requires
            mat.wf(),
            Self::fits(mat),
        ensures
            mat.spec_cols() == 1 ==> r@ == mat.col_seq(1),
            mat.spec_cols() == 4 ==> r@ == mat.row_seq(1),
    {
        if mat.cols() == 1 {
            let r = Vec4(mat.get((1, 1)), mat.get((2, 1)), mat.get((3, 1)), mat.get((4, 1)));
            assert(r@ =~= mat.col_seq(1));
            r
        } else {
            let r = Vec4(mat.get((1, 1)), mat.get((1, 2)), mat.get((1, 3)), mat.get((1, 4)));
            assert(r@ =~= mat.row_seq(1));
            r
        }
    }
}

impl<T: Scalar> Components for Vec4<T> {
    type Scalar = T;

    open spec fn elems(&self) -> Seq<T> {
        self@
    }

    open spec fn arity() -> nat {
        4
    }

    open spec fn letter_index(c: char) -> Option<int> {
        if c == 'x' {
            Some(0int)
        } else if c == 'y' {
            Some(1int)
        } else if c == 'z' {
            Some(2int)
        } else if c == 'w' {
            Some(3int)
        } else if c == 'r' {
            Some(0int)
        } else if c == 'g' {
            Some(1int)
        } else if c == 'b' {
            Some(2int)
        } else if c == 'a' {
            Some(3int)
        } else {
            None
        }
    }

    proof fn lemma_shape(&self) {
    }

    fn size() -> (n: usize) {
        4
    }

    fn has_comp(component: char) -> (b: bool) {
        match component {
            'x' | 'y' | 'z' | 'w' | 'r' | 'g' | 'b' | 'a' => true,
            _ => false,
        }
    }

    fn comp(&self, component: char) -> (r: T) {
        match component {
            'x' | 'r' => self.0,
            'y' | 'g' => self.1,
            'z' | 'b' => self.2,
            _ => self.3,
        }
    }

    fn at(&self, idx: usize) -> (r: T) {
        match idx {
            0 => self.0,
            1 => self.1,
            2 => self.2,
            3 => self.3,
            _ => zero::<T>(),
        }
    }

    open spec fn normalizes(i: int) -> bool {
        i < 3
    }

    fn normalized_by(&self, magnitude: T) -> (r: Self) {
        assert(self.elems()[0] == self.0);
        assert(self.elems()[1] == self.1);
        assert(self.elems()[2] == self.2);
        let r = Vec4(self.0 / magnitude, self.1 / magnitude, self.2 / magnitude, self.3);
        assert(r.elems()[0] == r.0);
        assert(r.elems()[1] == r.1);
        assert(r.elems()[2] == r.2);
        assert(r.elems()[3] == r.3);
        r
    }

    fn from_values(values: Vec<T>) -> (r: Self) {
        let c0: T = if values.len() > 0 {
            values[0]
        } else {
            zero::<T>()
        };
        let c1: T = if values.len() > 1 {
            values[1]
        } else {
            zero::<T>()
        };
        let c2: T = if values.len() > 2 {
            values[2]
        } else {
            zero::<T>()
        };
        let c3: T = if values.len() > 3 {
            values[3]
        } else {
            zero::<T>()
        };
        Vec4(c0, c1, c2, c3)
    }
}

impl<T: Scalar> VecX for Vec4<T> {
}

impl<T: Scalar> vstd::std_specs::ops::NegSpecImpl for Vec4<T> {
    open spec fn obeys_neg_spec() -> bool {
        T::obeys_neg_spec()
    }

    open spec fn neg_req(self) -> bool {
        self.0.neg_req() && self.1.neg_req() && self.2.neg_req() && self.3.neg_req()
    }

    open spec fn neg_spec(self) -> Vec4<T> {
        Vec4(self.0.neg_spec(), self.1.neg_spec(), self.2.neg_spec(), self.3.neg_spec())
    }
}

impl<T: Scalar> Neg for Vec4<T> {
    type Output = Vec4<T>;

    /// Each component negated.
    fn neg(self) -> (r: Vec4<T>)
        ensures
            negation_of(self.0, r.0),
            negation_of(self.1, r.1),
            negation_of(self.2, r.2),
            negation_of(self.3, r.3),
    {
        Vec4(self.0.neg(), self.1.neg(), self.2.neg(), self.3.neg())
    }
}

impl<T: Scalar> vstd::std_specs::ops::AddSpecImpl<Vec4<T>> for Vec4<T> {
    open spec fn obeys_add_spec() -> bool {
        T::obeys_add_spec()
    }

    open spec fn add_req(self, rhs: Vec4<T>) -> bool {
        &&& self.0.add_req(rhs.0)
        &&& self.1.add_req(rhs.1)
        &&& self.2.add_req(rhs.2)
        &&& self.3.add_req(rhs.3)
    }

    open spec fn add_spec(self, rhs: Vec4<T>) -> Vec4<T> {
        Vec4(
            self.0.add_spec(rhs.0),
            self.1.add_spec(rhs.1),
            self.2.add_spec(rhs.2),
            self.3.add_spec(rhs.3),
        )
    }
}

impl<T: Scalar> Add<Vec4<T>> for Vec4<T> {
    type Output = Vec4<T>;

    /// The sum of the components in each position.
    fn add(self, rhs: Vec4<T>) -> (r: Vec4<T>)
        ensures
            sum_of(self.0, rhs.0, r.0),
            sum_of(self.1, rhs.1, r.1),
            sum_of(self.2, rhs.2, r.2),
            sum_of(self.3, rhs.3, r.3),
    {
        Vec4(self.0 + rhs.0, self.1 + rhs.1, self.2 + rhs.2, self.3 + rhs.3)
    }
}

impl<T: Scalar> AddAssign<Vec4<T>> for Vec4<T> {
    /// Replaces each component by its sum with the component of `rhs`
    /// in its place.
    fn add_assign(&mut self, rhs: Vec4<T>)
        requires
            old(self).add_req(rhs),
        ensures
            sum_of(old(self).0, rhs.0, final(self).0),
            sum_of(old(self).1, rhs.1, final(self).1),
            sum_of(old(self).2, rhs.2, final(self).2),
            sum_of(old(self).3, rhs.3, final(self).3),
            T::obeys_add_spec() ==> *final(self) == old(self).add_spec(rhs),
    {
        let c0: T = self.0 + rhs.0;
        let c1: T = self.1 + rhs.1;
        let c2: T = self.2 + rhs.2;
        let c3: T = self.3 + rhs.3;
        self.0 = c0;
        self.1 = c1;
        self.2 = c2;
        self.3 = c3;
    }
}

impl<T: Scalar> vstd::std_specs::ops::SubSpecImpl<Vec4<T>> for Vec4<T> {
    open spec fn obeys_sub_spec() -> bool {
        T::obeys_sub_spec()
    }

    open spec fn sub_req(self, rhs: Vec4<T>) -> bool {
        &&& self.0.sub_req(rhs.0)
        &&& self.1.sub_req(rhs.1)
        &&& self.2.sub_req(rhs.2)
        &&& self.3.sub_req(rhs.3)
    }

    open spec fn sub_spec(self, rhs: Vec4<T>) -> Vec4<T> {
        Vec4(
            self.0.sub_spec(rhs.0),
            self.1.sub_spec(rhs.1),
            self.2.sub_spec(rhs.2),
            self.3.sub_spec(rhs.3),
        )
    }
}

impl<T: Scalar> Sub<Vec4<T>> for Vec4<T> {
    type Output = Vec4<T>;

    /// The difference of the components in each position.
    fn sub(self, rhs: Vec4<T>) -> (r: Vec4<T>)
        ensures
            difference_of(self.0, rhs.0, r.0),
            difference_of(self.1, rhs.1, r.1),
            difference_of(self.2, rhs.2, r.2),
            difference_of(self.3, rhs.3, r.3),
    {
        Vec4(self.0 - rhs.0, self.1 - rhs.1, self.2 - rhs.2, self.3 - rhs.3)
    }
}

impl<T: Scalar> SubAssign<Vec4<T>> for Vec4<T> {
    /// Replaces each component by its difference with the component of `rhs`
    /// in its place.
    fn sub_assign(&mut self, rhs: Vec4<T>)
        requires
            old(self).sub_req(rhs),
        ensures
            difference_of(old(self).0, rhs.0, final(self).0),
            difference_of(old(self).1, rhs.1, final(self).1),
            difference_of(old(self).2, rhs.2, final(self).2),
            difference_of(old(self).3, rhs.3, final(self).3),
            T::obeys_sub_spec() ==> *final(self) == old(self).sub_spec(rhs),
    {
        let c0: T = self.0 - rhs.0;
        let c1: T = self.1 - rhs.1;
        let c2: T = self.2 - rhs.2;
        let c3: T = self.3 - rhs.3;
        self.0 = c0;
        self.1 = c1;
        self.2 = c2;
        self.3 = c3;
    }
}

impl<T: Scalar> vstd::std_specs::ops::MulSpecImpl<T> for Vec4<T> {
    open spec fn obeys_mul_spec() -> bool {
        T::obeys_mul_spec()
    }

    open spec fn mul_req(self, rhs: T) -> bool {
        self.0.mul_req(rhs) && self.1.mul_req(rhs) && self.2.mul_req(rhs) && self.3.mul_req(rhs)
    }

    open spec fn mul_spec(self, rhs: T) -> Vec4<T> {
        Vec4(self.0.mul_spec(rhs), self.1.mul_spec(rhs), self.2.mul_spec(rhs), self.3.mul_spec(rhs))
    }
}

impl<T: Scalar> Mul<T> for Vec4<T> {
    type Output = Vec4<T>;

    /// The product of each component and the scalar.
    fn mul(self, rhs: T) -> (r: Vec4<T>)
        ensures
            product_of(self.0, rhs, r.0),
            product_of(self.1, rhs, r.1),
            product_of(self.2, rhs, r.2),
            product_of(self.3, rhs, r.3),
    {
        Vec4(self.0 * rhs, self.1 * rhs, self.2 * rhs, self.3 * rhs)
    }
}

impl<T: Scalar> MulAssign<T> for Vec4<T> {
    /// Replaces each component by its product with the scalar.
    fn mul_assign(&mut self, rhs: T)
        requires
            old(self).mul_req(rhs),
        ensures
            product_of(old(self).0, rhs, final(self).0),
            product_of(old(self).1, rhs, final(self).1),
            product_of(old(self).2, rhs, final(self).2),
            product_of(old(self).3, rhs, final(self).3),
            T::obeys_mul_spec() ==> *final(self) == old(self).mul_spec(rhs),
    {
        let c0: T = self.0 * rhs;
        let c1: T = self.1 * rhs;
        let c2: T = self.2 * rhs;
        let c3: T = self.3 * rhs;
        self.0 = c0;
        self.1 = c1;
        self.2 = c2;
        self.3 = c3;
    }
}

impl<T: Scalar> vstd::std_specs::ops::MulSpecImpl<Vec4<T>> for Vec4<T> {
    open spec fn obeys_mul_spec() -> bool {
        T::obeys_mul_spec()
    }

    open spec fn mul_req(self, rhs: Vec4<T>) -> bool {
        &&& self.0.mul_req(rhs.0)
        &&& self.1.mul_req(rhs.1)
        &&& self.2.mul_req(rhs.2)
        &&& self.3.mul_req(rhs.3)
    }

    open spec fn mul_spec(self, rhs: Vec4<T>) -> Vec4<T> {
        Vec4(
            self.0.mul_spec(rhs.0),
            self.1.mul_spec(rhs.1),
            self.2.mul_spec(rhs.2),
            self.3.mul_spec(rhs.3),
        )
    }
}

impl<T: Scalar> Mul<Vec4<T>> for Vec4<T> {
    type Output = Vec4<T>;

    /// The product of the components in each position.
    fn mul(self, rhs: Vec4<T>) -> (r: Vec4<T>)
        ensures
            product_of(self.0, rhs.0, r.0),
            product_of(self.1, rhs.1, r.1),
            product_of(self.2, rhs.2, r.2),
            product_of(self.3, rhs.3, r.3),
    {
        Vec4(self.0 * rhs.0, self.1 * rhs.1, self.2 * rhs.2, self.3 * rhs.3)
    }
}

impl<T: Scalar> MulAssign<Vec4<T>> for Vec4<T> {
    /// Replaces each component by its product with the component of `rhs`
    /// in its place.
    fn mul_assign(&mut self, rhs: Vec4<T>)
        requires
            old(self).mul_req(rhs),
        ensures
            product_of(old(self).0, rhs.0, final(self).0),
            product_of(old(self).1, rhs.1, final(self).1),
            product_of(old(self).2, rhs.2, final(self).2),
            product_of(old(self).3, rhs.3, final(self).3),
            T::obeys_mul_spec() ==> *final(self) == old(self).mul_spec(rhs),
    {
        let c0: T = self.0 * rhs.0;
        let c1: T = self.1 * rhs.1;
        let c2: T = self.2 * rhs.2;
        let c3: T = self.3 * rhs.3;
        self.0 = c0;
        self.1 = c1;
        self.2 = c2;
        self.3 = c3;
    }
}

impl<T: Scalar> vstd::std_specs::ops::DivSpecImpl<T> for Vec4<T> {
    open spec fn obeys_div_spec() -> bool {
        T::obeys_div_spec()
    }

    open spec fn div_req(self, rhs: T) -> bool {
        &&& self.0.div_req(rhs)
        &&& self.1.div_req(rhs)
        &&& self.2.div_req(rhs)
        &&& self.3.div_req(rhs)
        &&& (self.no_zero() || nonzero(rhs))
    }

    open spec fn div_spec(self, rhs: T) -> Vec4<T> {
        Vec4(self.0.div_spec(rhs), self.1.div_spec(rhs), self.2.div_spec(rhs), self.3.div_spec(rhs))
    }
}

impl<T: Scalar> Div<T> for Vec4<T> {
    type Output = Vec4<T>;

    /// The quotient of each component and the scalar.
    /// No position may hold zero over zero. A component that is not zero
    /// may be divided by zero, where the scalar type allows that.
    fn div(self, rhs: T) -> (r: Vec4<T>)
        ensures
            quotient_of(self.0, rhs, r.0),
            quotient_of(self.1, rhs, r.1),
            quotient_of(self.2, rhs, r.2),
            quotient_of(self.3, rhs, r.3),
    {
        Vec4(self.0 / rhs, self.1 / rhs, self.2 / rhs, self.3 / rhs)
    }
}

impl<T: Scalar> DivAssign<T> for Vec4<T> {
    /// Replaces each component by its quotient with the scalar.
    /// No position may hold zero over zero. A component that is not zero
    /// may be divided by zero, where the scalar type allows that.
    fn div_assign(&mut self, rhs: T)
        requires
            old(self).div_req(rhs),
        ensures
            quotient_of(old(self).0, rhs, final(self).0),
            quotient_of(old(self).1, rhs, final(self).1),
            quotient_of(old(self).2, rhs, final(self).2),
            quotient_of(old(self).3, rhs, final(self).3),
            T::obeys_div_spec() ==> *final(self) == old(self).div_spec(rhs),
    {
        let c0: T = self.0 / rhs;
        let c1: T = self.1 / rhs;
        let c2: T = self.2 / rhs;
        let c3: T = self.3 / rhs;
        self.0 = c0;
        self.1 = c1;
        self.2 = c2;
        self.3 = c3;
    }
}

impl<T: Scalar> vstd::std_specs::ops::DivSpecImpl<Vec4<T>> for Vec4<T> {
    open spec fn obeys_div_spec() -> bool {
        T::obeys_div_spec()
    }

    open spec fn div_req(self, rhs: Vec4<T>) -> bool {
        &&& self.0.div_req(rhs.0)
        &&& self.1.div_req(rhs.1)
        &&& self.2.div_req(rhs.2)
        &&& self.3.div_req(rhs.3)
        &&& self.no_zero_pair(rhs)
    }

    open spec fn div_spec(self, rhs: Vec4<T>) -> Vec4<T> {
        Vec4(
            self.0.div_spec(rhs.0),
            self.1.div_spec(rhs.1),
            self.2.div_spec(rhs.2),
            self.3.div_spec(rhs.3),
        )
    }
}

impl<T: Scalar> Div<Vec4<T>> for Vec4<T> {
    type Output = Vec4<T>;

    /// The quotient of the components in each position.
    /// No position may hold zero over zero. A component that is not zero
    /// may be divided by zero, where the scalar type allows that.
    fn div(self, rhs: Vec4<T>) -> (r: Vec4<T>)
        ensures
            quotient_of(self.0, rhs.0, r.0),
            quotient_of(self.1, rhs.1, r.1),
            quotient_of(self.2, rhs.2, r.2),
            quotient_of(self.3, rhs.3, r.3),
    {
        Vec4(self.0 / rhs.0, self.1 / rhs.1, self.2 / rhs.2, self.3 / rhs.3)
    }
}

impl<T: Scalar> DivAssign<Vec4<T>> for Vec4<T> {
    /// Replaces each component by its quotient with the component of `rhs`
    /// in its place.
    /// No position may hold zero over zero. A component that is not zero
    /// may be divided by zero, where the scalar type allows that.
    fn div_assign(&mut self, rhs: Vec4<T>)
        requires
            old(self).div_req(rhs),
        ensures
            quotient_of(old(self).0, rhs.0, final(self).0),
            quotient_of(old(self).1, rhs.1, final(self).1),
            quotient_of(old(self).2, rhs.2, final(self).2),
            quotient_of(old(self).3, rhs.3, final(self).3),
            T::obeys_div_spec() ==> *final(self) == old(self).div_spec(rhs),
    {
        let c0: T = self.0 / rhs.0;
        let c1: T = self.1 / rhs.1;
        let c2: T = self.2 / rhs.2;
        let c3: T = self.3 / rhs.3;
        self.0 = c0;
        self.1 = c1;
        self.2 = c2;
        self.3 = c3;
    }
}

impl<T: Scalar> vstd::std_specs::ops::RemSpecImpl<T> for Vec4<T> {
    open spec fn obeys_rem_spec() -> bool {
        T::obeys_rem_spec()
    }

    open spec fn rem_req(self, rhs: T) -> bool {
        &&& self.0.rem_req(rhs)
        &&& self.1.rem_req(rhs)
        &&& self.2.rem_req(rhs)
        &&& self.3.rem_req(rhs)
        &&& nonzero(rhs)
    }

    open spec fn rem_spec(self, rhs: T) -> Vec4<T> {
        Vec4(self.0.rem_spec(rhs), self.1.rem_spec(rhs), self.2.rem_spec(rhs), self.3.rem_spec(rhs))
    }
}

impl<T: Scalar> Rem<T> for Vec4<T> {
    type Output = Vec4<T>;

    /// The remainder of each component and the scalar.
    /// No divisor may be zero, whatever the other components hold.
    fn rem(self, rhs: T) -> (r: Vec4<T>)
        ensures
            remainder_of(self.0, rhs, r.0),
            remainder_of(self.1, rhs, r.1),
            remainder_of(self.2, rhs, r.2),
            remainder_of(self.3, rhs, r.3),
    {
        Vec4(self.0 % rhs, self.1 % rhs, self.2 % rhs, self.3 % rhs)
    }
}

impl<T: Scalar> RemAssign<T> for Vec4<T> {
    /// Replaces each component by its remainder with the scalar.
    /// No divisor may be zero, whatever the other components hold.
    fn rem_assign(&mut self, rhs: T)
        requires
            old(self).rem_req(rhs),
        ensures
            remainder_of(old(self).0, rhs, final(self).0),
            remainder_of(old(self).1, rhs, final(self).1),
            remainder_of(old(self).2, rhs, final(self).2),
            remainder_of(old(self).3, rhs, final(self).3),
            T::obeys_rem_spec() ==> *final(self) == old(self).rem_spec(rhs),
    {
        let c0: T = self.0 % rhs;
        let c1: T = self.1 % rhs;
        let c2: T = self.2 % rhs;
        let c3: T = self.3 % rhs;
        self.0 = c0;
        self.1 = c1;
        self.2 = c2;
        self.3 = c3;
    }
}

impl<T: Scalar> vstd::std_specs::ops::RemSpecImpl<Vec4<T>> for Vec4<T> {
    open spec fn obeys_rem_spec() -> bool {
        T::obeys_rem_spec()
    }

    open spec fn rem_req(self, rhs: Vec4<T>) -> bool {
        &&& self.0.rem_req(rhs.0)
        &&& self.1.rem_req(rhs.1)
        &&& self.2.rem_req(rhs.2)
        &&& self.3.rem_req(rhs.3)
        &&& rhs.no_zero()
    }

    open spec fn rem_spec(self, rhs: Vec4<T>) -> Vec4<T> {
        Vec4(
            self.0.rem_spec(rhs.0),
            self.1.rem_spec(rhs.1),
            self.2.rem_spec(rhs.2),
            self.3.rem_spec(rhs.3),
        )
    }
}

impl<T: Scalar> Rem<Vec4<T>> for Vec4<T> {
    type Output = Vec4<T>;

    /// The remainder of the components in each position.
    /// No divisor may be zero, whatever the other components hold.
    fn rem(self, rhs: Vec4<T>) -> (r: Vec4<T>)
        ensures
            remainder_of(self.0, rhs.0, r.0),
            remainder_of(self.1, rhs.1, r.1),
            remainder_of(self.2, rhs.2, r.2),
            remainder_of(self.3, rhs.3, r.3),
    {
        Vec4(self.0 % rhs.0, self.1 % rhs.1, self.2 % rhs.2, self.3 % rhs.3)
    }
}

impl<T: Scalar> RemAssign<Vec4<T>> for Vec4<T> {
    /// Replaces each component by its remainder with the component of `rhs`
    /// in its place.
    /// No divisor may be zero, whatever the other components hold.
    fn rem_assign(&mut self, rhs: Vec4<T>)
        requires
            old(self).rem_req(rhs),
        ensures
            remainder_of(old(self).0, rhs.0, final(self).0),
            remainder_of(old(self).1, rhs.1, final(self).1),
            remainder_of(old(self).2, rhs.2, final(self).2),
            remainder_of(old(self).3, rhs.3, final(self).3),
            T::obeys_rem_spec() ==> *final(self) == old(self).rem_spec(rhs),
    {
        let c0: T = self.0 % rhs.0;
        let c1: T = self.1 % rhs.1;
        let c2: T = self.2 % rhs.2;
        let c3: T = self.3 % rhs.3;
        self.0 = c0;
        self.1 = c1;
        self.2 = c2;
        self.3 = c3;
    }
}

impl<T: Scalar> vstd::std_specs::cmp::PartialEqSpecImpl for Vec4<T> {
    open spec fn obeys_eq_spec() -> bool {
        T::obeys_eq_spec()
    }

    open spec fn eq_spec(&self, other: &Vec4<T>) -> bool {
        &&& self.0.eq_spec(&other.0)
        &&& self.1.eq_spec(&other.1)
        &&& self.2.eq_spec(&other.2)
        &&& self.3.eq_spec(&other.3)
    }
}

impl<T: Scalar> PartialEq for Vec4<T> {
    /// Whether the components in each position compare equal: true only
    /// if `==` said so at every position, false only if it said otherwise
    /// at one.
    fn eq(&self, other: &Vec4<T>) -> (r: bool)
        ensures
            r ==> (eq_answer(self.0, other.0, true)
                && eq_answer(self.1, other.1, true)
                && eq_answer(self.2, other.2, true)
                && eq_answer(self.3, other.3, true)),
            !r ==> (eq_answer(self.0, other.0, false)
                || eq_answer(self.1, other.1, false)
                || eq_answer(self.2, other.2, false)
                || eq_answer(self.3, other.3, false)),
    {
        self.0 == other.0 && self.1 == other.1 && self.2 == other.2 && self.3 == other.3
    }
}

impl<T: Scalar + Eq> Eq for Vec4<T> {

}

impl<T: Scalar> vstd::std_specs::core::IndexSpecImpl<usize> for Vec4<T> {
    open spec fn index_req(&self, index: &usize) -> bool {
        *index < 4
    }
}

impl<T: Scalar> Index<usize> for Vec4<T> {
    type Output = T;

    /// The component at a position.
    fn index(&self, idx: usize) -> (r: &T)
        ensures
            *r == self@[idx as int],
    {
        match idx {
            0 => &self.0,
            1 => &self.1,
            2 => &self.2,
            _ => &self.3,
        }
    }
}

impl<T: Scalar> vstd::std_specs::convert::FromSpecImpl<T> for Vec4<T> {
    open spec fn obeys_from_spec() -> bool {
        true
    }

    open spec fn from_spec(f: T) -> Vec4<T> {
        Vec4(f, f, f, f)
    }
}

impl<T: Scalar> From<T> for Vec4<T> {
    /// The vector with `f` in every component.
    fn from(f: T) -> (r: Vec4<T>) {
        Vec4(f, f, f, f)
    }
}

impl<T: Scalar> vstd::std_specs::convert::FromSpecImpl<Vec<T>> for Vec4<T> {
    open spec fn obeys_from_spec() -> bool {
        T::obeys_from_spec()
    }

    open spec fn from_spec(values: Vec<T>) -> Vec4<T> {
        Vec4(
            if values@.len() > 0 {
                values@[0]
            } else {
                zero_of::<T>()
            },
            if values@.len() > 1 {
                values@[1]
            } else {
                zero_of::<T>()
            },
            if values@.len() > 2 {
                values@[2]
            } else {
                zero_of::<T>()
            },
            if values@.len() > 3 {
                values@[3]
            } else {
                zero_of::<T>()
            },
        )
    }
}

impl<T: Scalar> From<Vec<T>> for Vec4<T> {
    /// The vector of the first values of the list, with zero where the
    /// list is too short.
    fn from(values: Vec<T>) -> (r: Vec4<T>)
        ensures
            values@.len() > 0 ==> r.0 == values@[0],
            values@.len() <= 0 ==> from_zero(r.0),
            values@.len() > 1 ==> r.1 == values@[1],
            values@.len() <= 1 ==> from_zero(r.1),
            values@.len() > 2 ==> r.2 == values@[2],
            values@.len() <= 2 ==> from_zero(r.2),
            values@.len() > 3 ==> r.3 == values@[3],
            values@.len() <= 3 ==> from_zero(r.3),
    {
        let r = Self::from_values(values);
        assert(r.elems()[0] == r.0);
        assert(r.elems()[1] == r.1);
        assert(r.elems()[2] == r.2);
        assert(r.elems()[3] == r.3);
        r
    }
}

impl<T: Scalar> Default for Vec4<T> {
    /// The vector of zeros.
    fn default() -> (r: Vec4<T>)
        ensures
            from_zero(r.0),
            from_zero(r.1),
            from_zero(r.2),
            from_zero(r.3),
    {
        Vec4(zero::<T>(), zero::<T>(), zero::<T>(), zero::<T>())
    }
}

impl<T: Scalar> vstd::std_specs::convert::FromSpecImpl<Vec2<T>> for Vec4<T> {
    open spec fn obeys_from_spec() -> bool {
        T::obeys_from_spec()
    }

    open spec fn from_spec(v: Vec2<T>) -> Vec4<T> {
        Vec4(v.0, v.1, zero_of::<T>(), zero_of::<T>())
    }
}

impl<T: Scalar> From<Vec2<T>> for Vec4<T> {
    /// The components of `v`, followed by zero.
    fn from(v: Vec2<T>) -> (r: Vec4<T>)
        ensures
            r.0 == v.0,
            r.1 == v.1,
            from_zero(r.2),
            from_zero(r.3),
    {
        Vec4(v.0, v.1, zero::<T>(), zero::<T>())
    }
}

impl<T: Scalar> vstd::std_specs::convert::FromSpecImpl<Vec3<T>> for Vec4<T> {
    open spec fn obeys_from_spec() -> bool {
        T::obeys_from_spec()
    }

    open spec fn from_spec(v: Vec3<T>) -> Vec4<T> {
        Vec4(v.0, v.1, v.2, zero_of::<T>())
    }
}

impl<T: Scalar> From<Vec3<T>> for Vec4<T> {
    /// The components of `v`, followed by zero.
    fn from(v: Vec3<T>) -> (r: Vec4<T>)
        ensures
            r.0 == v.0,
            r.1 == v.1,
            r.2 == v.2,
            from_zero(r.3),
    {
        Vec4(v.0, v.1, v.2, zero::<T>())
    }
}

impl<T: Scalar> vstd::std_specs::convert::FromSpecImpl<(Vec3<T>, T)> for Vec4<T> {
    open spec fn obeys_from_spec() -> bool {
        true
    }

    open spec fn from_spec(t: (Vec3<T>, T)) -> Vec4<T> {
        Vec4(t.0.0, t.0.1, t.0.2, t.1)
    }
}

impl<T: Scalar> From<(Vec3<T>, T)> for Vec4<T> {
    /// The components of the vector, followed by the scalar.
    fn from(t: (Vec3<T>, T)) -> (r: Vec4<T>) {
        Vec4(t.0.0, t.0.1, t.0.2, t.1)
    }
}

impl<T: Scalar> vstd::std_specs::convert::FromSpecImpl<(T, Vec3<T>)> for Vec4<T> {
    open spec fn obeys_from_spec() -> bool {
        true
    }

    open spec fn from_spec(t: (T, Vec3<T>)) -> Vec4<T> {
        Vec4(t.0, t.1.0, t.1.1, t.1.2)
    }
}

impl<T: Scalar> From<(T, Vec3<T>)> for Vec4<T> {
    /// The scalar, followed by the components of the vector.
    fn from(t: (T, Vec3<T>)) -> (r: Vec4<T>) {
        Vec4(t.0, t.1.0, t.1.1, t.1.2)
    }
}

} // verus!
