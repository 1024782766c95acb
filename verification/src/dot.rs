//! The dot product of two sequences of scalars, summed from the left.

use crate::scalar::from_zero;
use crate::scalar::product_of;
use crate::scalar::sum_of;
use crate::scalar::zero;
use crate::scalar::zero_of;
use crate::scalar::Scalar;
use vstd::prelude::*;
use vstd::std_specs::convert::FromSpec;
use vstd::std_specs::ops::AddSpec;
use vstd::std_specs::ops::MulSpec;

verus! {

/// The dot product of the first `n` components as a value:
/// zero for none, else `a[0]*b[0] + a[1]*b[1] + ...`, added left to right.
pub open spec fn dot_of<T: Scalar>(a: Seq<T>, b: Seq<T>, n: nat) -> T
    decreases n,
{
    if n == 0 {
        zero_of::<T>()
    } else if n == 1 {
        a[0].mul_spec(b[0])
    } else {
        dot_of(a, b, (n - 1) as nat).add_spec(a[n - 1].mul_spec(b[n - 1]))
    }
}

/// `r` is a value that the dot product of the first `n` components may
/// give.
pub open spec fn is_dot<T: Scalar>(a: Seq<T>, b: Seq<T>, n: nat, r: T) -> bool
    decreases n,
{
    if n == 0 {
        from_zero(r)
    } else if n == 1 {
        product_of(a[0], b[0], r)
    } else {
        exists|acc: T, p: T|
            {
                &&& is_dot(a, b, (n - 1) as nat, acc)
                &&& product_of(a[n - 1], b[n - 1], p)
                &&& #[trigger] sum_of(acc, p, r)
            }
    }
}

/// The dot product of the first `n` components can be computed: every
/// product and every partial sum meets the precondition of its operator.
pub open spec fn dot_defined<T: Scalar>(a: Seq<T>, b: Seq<T>, n: nat) -> bool
    decreases n,
{
    if n == 0 {
        true
    } else {
        &&& dot_defined(a, b, (n - 1) as nat)
        &&& a[n - 1].mul_req(b[n - 1])
        &&& n > 1 ==> forall|acc: T, p: T|
            is_dot(a, b, (n - 1) as nat, acc) && product_of(a[n - 1], b[n - 1], p)
                ==> #[trigger] acc.add_req(p)
    }
}

/// The scalar's `+`, `*` and conversion from `i8` are exact.
pub open spec fn dot_exact<T: Scalar>() -> bool {
    T::obeys_add_spec() && T::obeys_mul_spec() && T::obeys_from_spec()
}

/// Where the scalar's arithmetic is exact, the dot product has one value:
/// `dot_of`.
pub proof fn lemma_dot_exact<T: Scalar>(a: Seq<T>, b: Seq<T>, n: nat, r: T)
    requires
        dot_exact::<T>(),
        is_dot(a, b, n, r),
    ensures
        r == dot_of(a, b, n),
    decreases n,
{
    if n > 1 {
        let (acc, p) = choose|acc: T, p: T|
            {
                &&& is_dot(a, b, (n - 1) as nat, acc)
                &&& product_of(a[n - 1], b[n - 1], p)
                &&& #[trigger] sum_of(acc, p, r)
            };
        lemma_dot_exact(a, b, (n - 1) as nat, acc);
    }
}

/// The dot product of two vectors of equal length.
pub fn vec_dot<T: Scalar>(a: &Vec<T>, b: &Vec<T>) -> (r: T)
    requires
        a.len() == b.len(),
        dot_defined(a@, b@, a@.len()),
    ensures
        is_dot(a@, b@, a@.len(), r),
        dot_exact::<T>() ==> r == dot_of(a@, b@, a@.len()),
{
    let n = a.len();
    if n == 0 {
        return zero::<T>();
    }
    proof {
        lemma_dot_defined_prefix(a@, b@, n as nat, 1);
    }
    let mut acc: T = a[0] * b[0];
    let mut k: usize = 1;
    while k < n
        invariant
            1 <= k <= n,
            n == a@.len(),
            n == b@.len(),
            dot_defined(a@, b@, n as nat),
            is_dot(a@, b@, k as nat, acc),
        decreases n - k,
    {
        proof {
            lemma_dot_defined_prefix(a@, b@, n as nat, (k + 1) as nat);
        }
        let p = a[k] * b[k];
        let next = acc + p;
        assert(sum_of(acc, p, next));
        acc = next;
        k = k + 1;
    }
    proof {
        if dot_exact::<T>() {
            lemma_dot_exact(a@, b@, n as nat, acc);
        }
    }
    acc
}

/// A dot product that can be computed over `n` components can be
/// computed over any fewer.
pub proof fn lemma_dot_defined_prefix<T: Scalar>(a: Seq<T>, b: Seq<T>, n: nat, m: nat)
    requires
        dot_defined(a, b, n),
        m <= n,
    ensures
        dot_defined(a, b, m),
    decreases n,
{
    if m < n {
        lemma_dot_defined_prefix(a, b, (n - 1) as nat, m);
    }
}

} // verus!
