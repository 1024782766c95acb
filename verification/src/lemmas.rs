//! Lemmas that relate several operations of the library.
//!
//! Some hold of every scalar type. Others need the scalar's arithmetic
//! to be exact and to follow the usual identities; they name what they
//! need, and say nothing of a scalar type that lacks it.

use crate::dot::dot_exact;
use crate::dot::dot_of;
use crate::mat::Matrix;
use crate::scalar::is_zero;
use crate::scalar::lemma_exact_values;
use crate::scalar::one_of;
use crate::scalar::zero_of;
use crate::scalar::zero_test_exact;
use crate::scalar::Scalar;
use crate::vec2::Vec2;
use crate::vec3::Vec3;
use crate::vec4::Vec4;
use crate::vecx::swizzle_ok;
use crate::vecx::swizzled;
use crate::vecx::Components;
use vstd::prelude::*;
use vstd::std_specs::cmp::PartialEqSpec;
use vstd::std_specs::convert::FromSpec;
use vstd::std_specs::ops::AddSpec;
use vstd::std_specs::ops::DivSpec;
use vstd::std_specs::ops::MulSpec;
use vstd::std_specs::ops::NegSpec;
use vstd::std_specs::ops::RemSpec;
use vstd::std_specs::ops::SubSpec;

verus! {

/// The swizzle `"xy"` of a vector of two components is the vector
/// itself: the string is accepted, and a result `r` of the swizzle is `v`.
pub proof fn lemma_swizzle_xy<T: Scalar>(v: Vec2<T>, r: Vec2<T>)
    ensures
        swizzle_ok::<Vec2<T>, Vec2<T>>("xy"@),
        swizzled(v, "xy"@) == v@,
        r@ == swizzled(v, "xy"@) ==> r == v,
{
    reveal_strlit("xy");
}

/// The swizzle `"xyz"` of a vector of three components is the vector
/// itself, and so is `"rgb"`.
pub proof fn lemma_swizzle_xyz<T: Scalar>(v: Vec3<T>, r: Vec3<T>)
    ensures
        swizzle_ok::<Vec3<T>, Vec3<T>>("xyz"@),
        swizzled(v, "xyz"@) == v@,
        swizzle_ok::<Vec3<T>, Vec3<T>>("rgb"@),
        swizzled(v, "rgb"@) == v@,
        r@ == swizzled(v, "xyz"@) || r@ == swizzled(v, "rgb"@) ==> r == v,
{
    reveal_strlit("xyz");
    reveal_strlit("rgb");
}

/// The swizzle `"xyzw"` of a vector of four components is the vector
/// itself, and so is `"rgba"`.
pub proof fn lemma_swizzle_xyzw<T: Scalar>(v: Vec4<T>, r: Vec4<T>)
    ensures
        swizzle_ok::<Vec4<T>, Vec4<T>>("xyzw"@),
        swizzled(v, "xyzw"@) == v@,
        swizzle_ok::<Vec4<T>, Vec4<T>>("rgba"@),
        swizzled(v, "rgba"@) == v@,
        r@ == swizzled(v, "xyzw"@) || r@ == swizzled(v, "rgba"@) ==> r == v,
{
    reveal_strlit("xyzw");
    reveal_strlit("rgba");
}

/// The swizzle `"xxx"` of a vector of two components holds its first
/// component three times.
pub proof fn lemma_swizzle_xxx<T: Scalar>(v: Vec2<T>, r: Vec3<T>)
    ensures
        swizzle_ok::<Vec2<T>, Vec3<T>>("xxx"@),
        swizzled(v, "xxx"@) == seq![v.0, v.0, v.0],
        r@ == swizzled(v, "xxx"@) ==> r == Vec3(v.0, v.0, v.0),
{
    reveal_strlit("xxx");
}

/// A swizzle selects its components in the order of its letters: the
/// component in each place of the result is the one that the letter in
/// that place names.
pub proof fn lemma_swizzle_order<S: Components>(v: S, swizzle: Seq<char>, i: int)
    requires
        0 <= i < swizzle.len(),
    ensures
        swizzled(v, swizzle).len() == swizzle.len(),
        swizzled(v, swizzle)[i] == v.elems()[S::letter_index(swizzle[i]).unwrap()],
{
}

/// A swizzle whose length is not the number of components of the target
/// type selects no vector of that type, whatever its letters.
pub proof fn lemma_swizzle_arity<S: Components, U: Components>(swizzle: Seq<char>)
    requires
        swizzle.len() != U::arity(),
    ensures
        !swizzle_ok::<S, U>(swizzle),
{
}

/// A swizzle with a character that is no letter of the source type
/// selects no vector.
pub proof fn lemma_swizzle_letter<S: Components, U: Components>(swizzle: Seq<char>, i: int)
    requires
        0 <= i < swizzle.len(),
        S::letter_index(swizzle[i]) is None,
    ensures
        !swizzle_ok::<S, U>(swizzle),
{
}

/// Where zero can be told, division is refused as soon as one component
/// and its divisor are both zero, whatever the other components hold.
pub proof fn lemma_div_zero_by_zero<T: Scalar>(
    a: Vec2<T>,
    b: Vec2<T>,
    c: Vec3<T>,
    d: Vec3<T>,
    e: Vec4<T>,
    f: Vec4<T>,
)
    requires
        zero_test_exact::<T>(),
    ensures
        a.any_zero_pair(b) ==> !a.div_req(b),
        c.any_zero_pair(d) ==> !c.div_req(d),
        e.any_zero_pair(f) ==> !e.div_req(f),
{
}

/// Where zero can be told, the remainder is refused as soon as one
/// component of the divisor is zero, whatever the other components hold.
pub proof fn lemma_rem_zero_divisor<T: Scalar>(
    a: Vec2<T>,
    b: Vec2<T>,
    c: Vec3<T>,
    d: Vec3<T>,
    e: Vec4<T>,
    f: Vec4<T>,
)
    requires
        zero_test_exact::<T>(),
    ensures
        b.any_zero() ==> !a.rem_req(b),
        d.any_zero() ==> !c.rem_req(d),
        f.any_zero() ==> !e.rem_req(f),
{
}

/// Where zero can be told, the remainder by a scalar that is zero is
/// refused.
pub proof fn lemma_rem_zero_scalar<T: Scalar>(a: Vec2<T>, c: Vec3<T>, e: Vec4<T>, s: T)
    requires
        zero_test_exact::<T>(),
        is_zero(s),
    ensures
        !a.rem_req(s),
        !c.rem_req(s),
        !e.rem_req(s),
{
}

/// The product of two matrices is refused where the left one has not as
/// many columns as the right one has rows.
pub proof fn lemma_multiply_shape<T: Scalar>(m1: Matrix<T>, m2: Matrix<T>)
    requires
        m1.spec_cols() != m2.spec_rows(),
    ensures
        !m1.mul_defined(&m2),
{
}

/// The scalar's `==` is an equivalence: reflexive, symmetric and
/// transitive.
pub open spec fn eq_is_equivalence<T: Scalar>() -> bool {
    &&& forall|x: T| #[trigger] x.eq_spec(&x)
    &&& forall|x: T, y: T| #[trigger] x.eq_spec(&y) ==> y.eq_spec(&x)
    &&& forall|x: T, y: T, z: T|
        #[trigger] x.eq_spec(&y) && #[trigger] y.eq_spec(&z) ==> x.eq_spec(&z)
}

/// For such scalars the `==` of vectors of two components is an
/// equivalence too.
pub proof fn lemma_eq_equivalence2<T: Scalar>(a: Vec2<T>, b: Vec2<T>, c: Vec2<T>)
    requires
        eq_is_equivalence::<T>(),
    ensures
        a.eq_spec(&a),
        a.eq_spec(&b) ==> b.eq_spec(&a),
        a.eq_spec(&b) && b.eq_spec(&c) ==> a.eq_spec(&c),
{
}

/// For such scalars the `==` of vectors of three components is an
/// equivalence too.
pub proof fn lemma_eq_equivalence3<T: Scalar>(a: Vec3<T>, b: Vec3<T>, c: Vec3<T>)
    requires
        eq_is_equivalence::<T>(),
    ensures
        a.eq_spec(&a),
        a.eq_spec(&b) ==> b.eq_spec(&a),
        a.eq_spec(&b) && b.eq_spec(&c) ==> a.eq_spec(&c),
{
}

/// For such scalars the `==` of vectors of four components is an
/// equivalence too.
pub proof fn lemma_eq_equivalence4<T: Scalar>(a: Vec4<T>, b: Vec4<T>, c: Vec4<T>)
    requires
        eq_is_equivalence::<T>(),
    ensures
        a.eq_spec(&a),
        a.eq_spec(&b) ==> b.eq_spec(&a),
        a.eq_spec(&b) && b.eq_spec(&c) ==> a.eq_spec(&c),
{
}

/// Multiplication commutes, and the negated difference of two scalars is
/// their difference the other way round.
pub open spec fn differences_flip<T: Scalar>() -> bool {
    &&& forall|x: T, y: T| #[trigger] x.mul_spec(y) == y.mul_spec(x)
    &&& forall|x: T, y: T| (#[trigger] x.sub_spec(y)).neg_spec() == y.sub_spec(x)
}

/// For such scalars the cross product is anticommutative:
/// `b × a == -(a × b)`.
pub proof fn lemma_cross_anticommutes<T: Scalar>(a: Vec3<T>, b: Vec3<T>)
    requires
        differences_flip::<T>(),
    ensures
        b.cross_of(a) == a.cross_of(b).neg_spec(),
{
}

/// Zero and one behave in sums and products as they do for numbers:
/// `0 * x == 0`, `1 * x == x`, `x + 0 == x` and `0 + x == x`.
pub open spec fn units_neutral<T: Scalar>() -> bool {
    &&& forall|x: T| #[trigger] zero_of::<T>().mul_spec(x) == zero_of::<T>()
    &&& forall|x: T| #[trigger] one_of::<T>().mul_spec(x) == x
    &&& forall|x: T| #[trigger] x.add_spec(zero_of::<T>()) == x
    &&& forall|x: T| #[trigger] zero_of::<T>().add_spec(x) == x
}

/// For such scalars, with exact sums and products, a vector survives the
/// way through homogeneous coordinates: as a column of four entries,
/// multiplied by the identity from the left and read back, it is the
/// vector it was.
pub proof fn lemma_identity_round_trip<T: Scalar>(
    v: Vec3<T>,
    w: T,
    id: Matrix<T>,
    column: Matrix<T>,
    product: Matrix<T>,
    back: Vec4<T>,
)
    requires
        dot_exact::<T>(),
        units_neutral::<T>(),
        id.is_id4(),
        column.holds(seq![seq![v.0], seq![v.1], seq![v.2], seq![w]], 4, 1),
        product.is_product(&id, &column),
        back@ == product.col_seq(1),
    ensures
        back == Vec4(v.0, v.1, v.2, w),
        Vec3::from_spec(back) == v,
{
    let c = column.col_seq(1);
    assert forall|row: int| 1 <= row <= 4 implies #[trigger] product.entry(row, 1) == c[row
        - 1] by {
        let r = id.row_seq(row);
        lemma_exact_values(r[0], r[0], r[0], true);
        lemma_exact_values(r[1], r[1], r[1], true);
        lemma_exact_values(r[2], r[2], r[2], true);
        lemma_exact_values(r[3], r[3], r[3], true);
        reveal_with_fuel(dot_of, 5);
    }
    assert(back@[0] == product.entry(1, 1));
    assert(back@[1] == product.entry(2, 1));
    assert(back@[2] == product.entry(3, 1));
    assert(back@[3] == product.entry(4, 1));
}

} // verus!
