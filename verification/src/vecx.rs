//! What every vector size has in common: its components by index and by
//! letter, and what is built on them: widening, the dot product and
//! swizzling.

use crate::dot::dot_defined;
use crate::dot::dot_exact;
use crate::dot::dot_of;
use crate::dot::is_dot;
use crate::dot::vec_dot;
use crate::scalar::difference_of;
use crate::scalar::equals_zero;
use crate::scalar::from_zero;
use crate::scalar::nonzero;
use crate::scalar::quotient_of;
use crate::scalar::zero_answer;
use crate::scalar::Scalar;
use crate::vec2::Vec2;
use crate::vec3::Vec3;
use crate::vec4::Vec4;
use vstd::prelude::*;
use vstd::std_specs::ops::DivSpec;
use vstd::std_specs::ops::SubSpec;
use vstd::string::StrSliceExecFns;

verus! {

/// The primitives of a vector type: how many components it has, each
/// component by position and by letter, and a constructor from a list.
pub trait Components: Copy + Sized {
    type Scalar: Scalar;

    /// The components in order.
    spec fn elems(&self) -> Seq<Self::Scalar>;

    /// The number of components.
    spec fn arity() -> nat;

    /// The position that a letter names, if it names one.
    spec fn letter_index(c: char) -> Option<int>;

    /// A vector has `arity()` components, and every letter names one of
    /// them.
    proof fn lemma_shape(&self)
        ensures
            self.elems().len() == Self::arity(),
            forall|c: char|
                (#[trigger] Self::letter_index(c)) is Some ==> 0 <= Self::letter_index(c).unwrap()
                    < Self::arity(),
    ;

    /// The number of components.
    fn size() -> (n: usize)
        ensures
            n == Self::arity(),
    ;

    /// Whether `component` is a letter of this vector type.
    fn has_comp(component: char) -> (b: bool)
        ensures
            b == (Self::letter_index(component) is Some),
    ;

    /// The component that a letter names.
    fn comp(&self, component: char) -> (r: Self::Scalar)
        requires
            Self::letter_index(component) is Some,
        ensures
            r == self.elems()[Self::letter_index(component).unwrap()],
    ;

    /// The component at a position, and zero past the last one.
    fn at(&self, idx: usize) -> (r: Self::Scalar)
        ensures
            idx < Self::arity() ==> r == self.elems()[idx as int],
            idx >= Self::arity() ==> from_zero(r),
    ;

    /// Whether normalization divides the component at position `i`.
    spec fn normalizes(i: int) -> bool;

    /// The vector divided by `magnitude`, which is told from zero: each
    /// component that normalization divides is its quotient by
    /// `magnitude`, and the others stay.
    fn normalized_by(&self, magnitude: Self::Scalar) -> (r: Self)
        requires
            nonzero(magnitude),
            forall|i: int|
                0 <= i < Self::arity() && Self::normalizes(i)
                    ==> (#[trigger] self.elems()[i]).div_req(magnitude),
        ensures
            forall|i: int|
                0 <= i < Self::arity() && Self::normalizes(i) ==> quotient_of(
                    self.elems()[i],
                    magnitude,
                    #[trigger] r.elems()[i],
                ),
            forall|i: int|
                0 <= i < Self::arity() && !Self::normalizes(i) ==> #[trigger] r.elems()[i]
                    == self.elems()[i],
    ;

    /// The vector whose components are the first `arity()` of `values`,
    /// with zero where `values` is too short.
    fn from_values(values: Vec<Self::Scalar>) -> (r: Self)
        ensures
            forall|i: int|
                0 <= i < Self::arity() && i < values@.len()
                    ==> #[trigger] r.elems()[i] == values@[i],
            forall|i: int|
                0 <= i < Self::arity() && i >= values@.len() ==> from_zero(#[trigger] r.elems()[i]),
    ;
}

/// The components of `v` read as a vector of type `U`: the first
/// `U::arity()` of them, where `v` has that many.
pub open spec fn widens_to<S: Components, U: Components>(v: S, values: Seq<S::Scalar>) -> bool {
    &&& values.len() == U::arity()
    &&& forall|i: int|
        0 <= i < values.len() && i < S::arity() ==> #[trigger] values[i] == v.elems()[i]
    &&& forall|i: int|
        0 <= i < values.len() && i >= S::arity() ==> from_zero(#[trigger] values[i])
}

/// Every character of `swizzle` is a letter of the vector type `S`.
pub open spec fn letters_ok<S: Components>(swizzle: Seq<char>) -> bool {
    forall|i: int| 0 <= i < swizzle.len() ==> S::letter_index(#[trigger] swizzle[i]) is Some
}

/// `swizzle` selects a vector of type `U` from one of type `S`: it has
/// one letter of `S` for each component of `U`.
pub open spec fn swizzle_ok<S: Components, U: Components>(swizzle: Seq<char>) -> bool {
    swizzle.len() == U::arity() && letters_ok::<S>(swizzle)
}

/// The components that `swizzle` selects from `v`, in the order of its
/// letters.
pub open spec fn swizzled<S: Components>(v: S, swizzle: Seq<char>) -> Seq<S::Scalar> {
    Seq::new(swizzle.len(), |i: int| v.elems()[S::letter_index(swizzle[i]).unwrap()])
}

/// The magnitude of `v` can be computed: its dot product with itself
/// can, and `sqrt` accepts whatever that gives.
pub open spec fn magnitude_defined<S: Components, F: Fn(S::Scalar) -> S::Scalar>(
    v: S,
    sqrt: F,
) -> bool {
    &&& dot_defined(v.elems(), v.elems(), S::arity())
    &&& forall|d: S::Scalar| #[trigger]
        is_dot(v.elems(), v.elems(), S::arity(), d) ==> call_requires(sqrt, (d,))
}

/// `m` is a value that the magnitude of `v` may take: what `sqrt` gives
/// for the dot product of `v` with itself.
pub open spec fn is_magnitude<S: Components, F: Fn(S::Scalar) -> S::Scalar>(
    v: S,
    sqrt: F,
    m: S::Scalar,
) -> bool {
    exists|d: S::Scalar| #[trigger]
        is_dot(v.elems(), v.elems(), S::arity(), d) && call_ensures(sqrt, (d,), m)
}

/// `n` is a vector that dividing `v` by `magnitude` may give.
pub open spec fn is_normalized_by<S: Components>(v: S, magnitude: S::Scalar, n: S) -> bool {
    &&& forall|i: int|
        0 <= i < S::arity() && S::normalizes(i) ==> quotient_of(
            v.elems()[i],
            magnitude,
            #[trigger] n.elems()[i],
        )
    &&& forall|i: int|
        0 <= i < S::arity() && !S::normalizes(i) ==> #[trigger] n.elems()[i] == v.elems()[i]
}

/// `v` can be normalized: its magnitude can be computed, and its
/// components can be divided by whatever magnitude comes out.
pub open spec fn normalized_defined<S: Components, F: Fn(S::Scalar) -> S::Scalar>(
    v: S,
    sqrt: F,
) -> bool {
    &&& magnitude_defined(v, sqrt)
    &&& forall|m: S::Scalar, i: int|
        is_magnitude(v, sqrt, m) && 0 <= i < S::arity() && S::normalizes(i)
            ==> #[trigger] v.elems()[i].div_req(m)
}

/// `n` is a vector that normalizing `v` may give: `v` divided by a
/// magnitude of `v` that the zero test told from zero.
pub open spec fn is_normalized<S: Components, F: Fn(S::Scalar) -> S::Scalar>(
    v: S,
    sqrt: F,
    n: S,
) -> bool {
    exists|m: S::Scalar| #[trigger]
        is_magnitude(v, sqrt, m) && is_normalized_by(v, m, n) && zero_answer(m, false)
}

/// `v` may have no direction: the zero test took a magnitude of `v` for
/// zero.
pub open spec fn no_direction<S: Components, F: Fn(S::Scalar) -> S::Scalar>(
    v: S,
    sqrt: F,
) -> bool {
    exists|m: S::Scalar| #[trigger] is_magnitude(v, sqrt, m) && zero_answer(m, true)
}

/// The dot product of the normalized vectors can be computed.
pub open spec fn unit_dot_defined<S: Components, F: Fn(S::Scalar) -> S::Scalar>(
    a: S,
    b: S,
    sqrt: F,
) -> bool {
    &&& normalized_defined(a, sqrt)
    &&& normalized_defined(b, sqrt)
    &&& forall|na: S, nb: S| #[trigger]
        is_normalized(a, sqrt, na) && #[trigger] is_normalized(b, sqrt, nb) ==> dot_defined(
            na.elems(),
            nb.elems(),
            S::arity(),
        )
}

/// `d` is a value that the dot product of the normalized vectors may
/// take.
pub open spec fn is_unit_dot<S: Components, F: Fn(S::Scalar) -> S::Scalar>(
    a: S,
    b: S,
    sqrt: F,
    d: S::Scalar,
) -> bool {
    exists|na: S, nb: S| #[trigger]
        is_normalized(a, sqrt, na) && #[trigger] is_normalized(b, sqrt, nb) && is_dot(
            na.elems(),
            nb.elems(),
            S::arity(),
            d,
        )
}

/// `d` is a vector that `a - b` may give, component by component.
pub open spec fn is_difference<S: Components>(a: S, b: S, d: S) -> bool {
    forall|i: int|
        0 <= i < S::arity() ==> difference_of(a.elems()[i], b.elems()[i], #[trigger] d.elems()[i])
}

/// The distance between `a` and `b` can be computed.
pub open spec fn distance_defined<S: Components, F: Fn(S::Scalar) -> S::Scalar>(
    a: S,
    b: S,
    sqrt: F,
) -> bool {
    &&& forall|i: int| 0 <= i < S::arity() ==> (#[trigger] b.elems()[i]).sub_req(a.elems()[i])
    &&& forall|d: S| #[trigger] is_difference(b, a, d) ==> magnitude_defined(d, sqrt)
}

/// `r` is a value that the distance between `a` and `b` may take: a
/// magnitude of a difference `b - a`.
pub open spec fn is_distance<S: Components, F: Fn(S::Scalar) -> S::Scalar>(
    a: S,
    b: S,
    sqrt: F,
    r: S::Scalar,
) -> bool {
    exists|d: S| #[trigger] is_difference(b, a, d) && is_magnitude(d, sqrt, r)
}

/// The angle between `a` and `b` can be computed: the dot product of the
/// normalized vectors can, and `acos` accepts whatever that gives.
pub open spec fn angle_defined<
    S: Components,
    F: Fn(S::Scalar) -> S::Scalar,
    G: Fn(S::Scalar) -> S::Scalar,
>(a: S, b: S, sqrt: F, acos: G) -> bool {
    &&& unit_dot_defined(a, b, sqrt)
    &&& forall|d: S::Scalar| #[trigger] is_unit_dot(a, b, sqrt, d) ==> call_requires(acos, (d,))
}

/// `r` is a value that the angle between `a` and `b` may take: what
/// `acos` gives for a dot product of the normalized vectors.
pub open spec fn is_angle<
    S: Components,
    F: Fn(S::Scalar) -> S::Scalar,
    G: Fn(S::Scalar) -> S::Scalar,
>(a: S, b: S, sqrt: F, acos: G, r: S::Scalar) -> bool {
    exists|d: S::Scalar| #[trigger] is_unit_dot(a, b, sqrt, d) && call_ensures(acos, (d,), r)
}

/// The operations that all vector types share, built on `Components`.
pub trait VecX: Components {
    /// The dot product of the two vectors as they are (not normalized).
    fn dot_product(&self, other: &Self) -> (r: Self::Scalar)
        requires
            dot_defined(self.elems(), other.elems(), Self::arity()),
        ensures
            is_dot(self.elems(), other.elems(), Self::arity(), r),
            dot_exact::<Self::Scalar>() ==> r == dot_of(self.elems(), other.elems(), Self::arity()),
    {
        let a = self.as_values_of::<Self>();
        let b = other.as_values_of::<Self>();
        proof {
            self.lemma_shape();
            other.lemma_shape();
            assert(a@ =~= self.elems());
            assert(b@ =~= other.elems());
        }
        vec_dot(&a, &b)
    }

    /// The length of the vector: the square root, taken by `sqrt`, of its
    /// dot product with itself.
    fn magnitude<F: Fn(Self::Scalar) -> Self::Scalar>(&self, sqrt: F) -> (m: Self::Scalar)
        requires
            magnitude_defined(*self, sqrt),
        ensures
            is_magnitude(*self, sqrt, m),
    {
        let d = self.dot_product(self);
        sqrt(d)
    }

    /// The length of the vector; short for `magnitude`.
    fn mag<F: Fn(Self::Scalar) -> Self::Scalar>(&self, sqrt: F) -> (m: Self::Scalar)
        requires
            magnitude_defined(*self, sqrt),
        ensures
            is_magnitude(*self, sqrt, m),
    {
        self.magnitude(sqrt)
    }

    /// The vector divided by its magnitude, or nothing where that
    /// magnitude is zero: such a vector has no direction.
    fn normalized<F: Fn(Self::Scalar) -> Self::Scalar>(&self, sqrt: F) -> (r: Option<Self>)
        requires
            normalized_defined(*self, sqrt),
        ensures
            r matches Some(n) ==> is_normalized(*self, sqrt, n),
            r is None ==> no_direction(*self, sqrt),
    {
        let m = self.magnitude(sqrt);
        if equals_zero(m) {
            None
        } else {
            proof {
                self.lemma_shape();
            }
            let n = self.normalized_by(m);
            Some(n)
        }
    }

    /// The difference `other - self`, component by component.
    fn offset_to(&self, other: &Self) -> (d: Self)
        requires
            forall|i: int|
                0 <= i < Self::arity() ==> (#[trigger] other.elems()[i]).sub_req(self.elems()[i]),
        ensures
            is_difference(*other, *self, d),
    {
        let n = Self::size();
        let mut values: Vec<Self::Scalar> = Vec::new();
        let mut i: usize = 0;
        while i < n
            invariant
                i <= n,
                n == Self::arity(),
                values@.len() == i,
                forall|j: int|
                    0 <= j < Self::arity() ==> (#[trigger] other.elems()[j]).sub_req(
                        self.elems()[j],
                    ),
                forall|j: int|
                    0 <= j < i ==> difference_of(
                        other.elems()[j],
                        self.elems()[j],
                        #[trigger] values@[j],
                    ),
            decreases n - i,
        {
            let a = other.at(i);
            let b = self.at(i);
            values.push(a - b);
            i = i + 1;
        }
        Self::from_values(values)
    }

    /// The distance to `other`: the magnitude of `other - self`.
    fn distance<F: Fn(Self::Scalar) -> Self::Scalar>(&self, other: &Self, sqrt: F) -> (r:
        Self::Scalar)
        requires
            distance_defined(*self, *other, sqrt),
        ensures
            is_distance(*self, *other, sqrt, r),
    {
        let d = self.offset_to(other);
        let r = d.magnitude(sqrt);
        r
    }

    /// The distance to `other`; short for `distance`.
    fn dist<F: Fn(Self::Scalar) -> Self::Scalar>(&self, other: &Self, sqrt: F) -> (r:
        Self::Scalar)
        requires
            distance_defined(*self, *other, sqrt),
        ensures
            is_distance(*self, *other, sqrt, r),
    {
        self.distance(other, sqrt)
    }

    /// The dot product of both vectors after each is normalized, or
    /// nothing where one of them has no direction. For numbers it lies
    /// between -1 and 1: -1 for opposite vectors, 0 for orthogonal ones, 1
    /// for vectors of one direction.
    fn dot<F: Fn(Self::Scalar) -> Self::Scalar + Copy>(&self, other: &Self, sqrt: F) -> (r: Option<
        Self::Scalar,
    >)
        requires
            unit_dot_defined(*self, *other, sqrt),
        ensures
            r matches Some(d) ==> is_unit_dot(*self, *other, sqrt, d),
            r is None ==> no_direction(*self, sqrt) || no_direction(*other, sqrt),
    {
        match self.normalized(sqrt) {
            None => None,
            Some(a) => match other.normalized(sqrt) {
                None => None,
                Some(b) => {
                    let d = a.dot_product(&b);
                    Some(d)
                },
            },
        }
    }

    /// The angle between the two vectors: what `acos` gives for the dot
    /// product of the normalized vectors, or nothing where one of them has
    /// no direction.
    fn angle<F: Fn(Self::Scalar) -> Self::Scalar + Copy, G: Fn(Self::Scalar) -> Self::Scalar>(
        &self,
        other: &Self,
        sqrt: F,
        acos: G,
    ) -> (r: Option<Self::Scalar>)
        requires
            angle_defined(*self, *other, sqrt, acos),
        ensures
            r matches Some(a) ==> is_angle(*self, *other, sqrt, acos, a),
            r is None ==> no_direction(*self, sqrt) || no_direction(*other, sqrt),
    {
        match self.dot(other, sqrt) {
            None => None,
            Some(d) => {
                let a = acos(d);
                Some(a)
            },
        }
    }

    /// The components as a list of the length of the vector type `U`:
    /// cut off where `U` is narrower, filled with zero where it is wider.
    fn as_values_of<U: Components>(&self) -> (values: Vec<Self::Scalar>)
        ensures
            widens_to::<Self, U>(*self, values@),
    {
        let n = U::size();
        let mut values: Vec<Self::Scalar> = Vec::new();
        let mut i: usize = 0;
        while i < n
            invariant
                i <= n,
                n == U::arity(),
                values@.len() == i,
                forall|j: int|
                    0 <= j < i && j < Self::arity() ==> #[trigger] values@[j] == self.elems()[j],
                forall|j: int|
                    0 <= j < i && j >= Self::arity() ==> from_zero(#[trigger] values@[j]),
            decreases n - i,
        {
            values.push(self.at(i));
            i = i + 1;
        }
        values
    }

    /// Whether `swizzle` has the length, in bytes, of the vector type `U`.
    fn is_valid_swizzle<U: Components>(&self, swizzle: &str) -> (b: bool)
        ensures
            b == (swizzle.len() == U::arity()),
    {
        swizzle.len() == U::size()
    }

    /// Whether `swizzle` selects a vector of type `U` from this one.
    fn can_swizzle<U: Components>(&self, swizzle: &str) -> (b: bool)
        ensures
            b == swizzle_ok::<Self, U>(swizzle@),
    {
        let mut letters: bool = true;
        for c in it: swizzle.chars()
            invariant
                it.seq() == swizzle@,
                letters == letters_ok::<Self>(swizzle@.take(it.index() as int)),
        {
            let ghost before = swizzle@.take(it.index() as int);
            let ghost after = swizzle@.take(it.index() + 1);
            letters = letters && Self::has_comp(c);
            assert(letters == letters_ok::<Self>(after)) by {
                if letters_ok::<Self>(after) {
                    assert(after[before.len() as int] == c);
                }
            }
        }
        assert(swizzle@.take(swizzle@.len() as int) =~= swizzle@);
        letters && swizzle.unicode_len() == U::size()
    }

    /// The components that the letters of `swizzle` name, in their order.
    fn swizzle_as_vec64(&self, swizzle: &str) -> (values: Vec<Self::Scalar>)
        requires
            letters_ok::<Self>(swizzle@),
        ensures
            values@ == swizzled(*self, swizzle@),
    {
        let mut values: Vec<Self::Scalar> = Vec::new();
        for c in it: swizzle.chars()
            invariant
                letters_ok::<Self>(swizzle@),
                it.seq() == swizzle@,
                values@.len() == it.index(),
                values@ == swizzled(*self, swizzle@.take(values@.len() as int)),
        {
            values.push(self.comp(c));
        }
        values
    }

    /// The vector of type `U` whose components are those that the letters
    /// of `swizzle` name.
    fn s<U: Components<Scalar = Self::Scalar>>(&self, swizzle: &str) -> (r: U)
        requires
            swizzle_ok::<Self, U>(swizzle@),
        ensures
            r.elems() == swizzled(*self, swizzle@),
    {
        let values = self.swizzle_as_vec64(swizzle);
        let r = U::from_values(values);
        proof {
            r.lemma_shape();
        }
        r
    }

    /// The two components that the letters of `xy` name.
    fn s2(&self, xy: &str) -> (r: Vec2<Self::Scalar>)
        requires
            swizzle_ok::<Self, Vec2<Self::Scalar>>(xy@),
        ensures
            r.elems() == swizzled(*self, xy@),
    {
        self.s::<Vec2<Self::Scalar>>(xy)
    }

    /// The three components that the letters of `xyz` name.
    fn s3(&self, xyz: &str) -> (r: Vec3<Self::Scalar>)
        requires
            swizzle_ok::<Self, Vec3<Self::Scalar>>(xyz@),
        ensures
            r.elems() == swizzled(*self, xyz@),
    {
        self.s::<Vec3<Self::Scalar>>(xyz)
    }

    /// The four components that the letters of `xyzw` name.
    fn s4(&self, xyzw: &str) -> (r: Vec4<Self::Scalar>)
        requires
            swizzle_ok::<Self, Vec4<Self::Scalar>>(xyzw@),
        ensures
            r.elems() == swizzled(*self, xyzw@),
    {
        self.s::<Vec4<Self::Scalar>>(xyzw)
    }
}

} // verus!
