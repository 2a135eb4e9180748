//! The general fixed-size vector, for an arbitrary compile-time dimension.

use vstd::prelude::*;

use crate::Vector;
use crate::array::arr_of;
use crate::array::lemma_arr_of;
use crate::ops::Component;
use crate::ops::VectorAssignOps;
use crate::ops::VectorOps;
use crate::ops::VectorRefAssignOps;
use crate::ops::VectorRefOps;
use crate::ops::lemma_seq_sum_take;
use crate::ops::seq_add;
use crate::ops::seq_neg;
use crate::ops::seq_products;
use crate::ops::seq_scale;
use crate::ops::seq_scale_div;
use crate::ops::seq_scale_left;
use crate::ops::seq_sub;
use crate::ops::seq_sum;
use crate::ops::seq_zero;

verus! {

/// General fixed-size low-dimensional vector.
///
/// Holds exactly `N` components of type `T`, in order; the view of a value
/// is that component sequence.  Does not do any heap allocation.
#[derive(Clone, Copy, PartialEq, Eq, Debug)]
pub struct VecND<T, const N: usize> {
    arr: [T; N],
}

impl<T, const N: usize> View for VecND<T, N> {
    type V = Seq<T>;

    closed spec fn view(&self) -> Seq<T> {
        self.arr@
    }
}

/// The vector whose component sequence is `s`, for a sequence of length
/// `N`.
///
/// The value is characterised only where a witness exists;
/// [`lemma_vec_of`] turns any vector with view `s` into that
/// characterisation.
pub open spec fn vec_of<T, const N: usize>(s: Seq<T>) -> VecND<T, N> {
    choose|v: VecND<T, N>| v@ == s
}

/// Any vector whose view is `s` is the vector that [`vec_of`] names.
pub proof fn lemma_vec_of<T, const N: usize>(v: VecND<T, N>, s: Seq<T>)
    requires
        v@ == s,
    ensures
        vec_of::<T, N>(s) == v,
{
    assert(exists|w: VecND<T, N>| w@ == s) by {
        assert(v@ == s);
    }
    let c = choose|w: VecND<T, N>| w@ == s;
    assert(c.arr =~= v.arr);
}

impl<T, const N: usize> VecND<T, N> {
    /// A vector always holds exactly `N` components.
    pub proof fn lemma_len(self)
        ensures
            self@.len() == N,
    {
    }

    /// Borrows the components as an array.
    #[inline]
    pub fn as_ref(&self) -> (r: &[T; N])
        ensures
            r@ == self@,
    {
        &self.arr
    }

    /// Borrows the components as a mutable array.
    #[inline]
    pub fn as_mut(&mut self) -> (r: &mut [T; N])
        ensures
            r@ == old(self)@,
            final(self)@ == final(r)@,
    {
        &mut self.arr
    }
}

impl<T: Component, const N: usize> VecND<T, N> {
    /// The product of a scalar on the left with this vector: every
    /// component is multiplied by `s`, with `s` as the left factor.
    pub fn left_mul(self, s: T) -> (r: VecND<T, N>)
        ensures
            r@ == seq_scale_left(s, self@),
    {
        let mut out = self.arr;
        let mut i: usize = 0;
        while i < N
            invariant
                i <= N,
                out@.len() == N,
                forall|j: int| 0 <= j < i ==> out@[j] == s.sp_mul(self@[j]),
                forall|j: int| i <= j < N ==> out@[j] == self@[j],
            decreases N - i,
        {
            out[i] = s.mul(self.arr[i]);
            i = i + 1;
        }
        let r = VecND { arr: out };
        proof {
            assert(r@ =~= seq_scale_left(s, self@));
        }
        r
    }
}

impl<T: Component, const N: usize> VectorOps<T> for VecND<T, N> {
    open spec fn cs(self) -> Seq<T> {
        self@
    }

    proof fn lemma_cs_injective(self, other: Self) {
        assert(self.arr =~= other.arr);
    }

    fn negated(self) -> (r: Self)
        ensures
            r == vec_of::<T, N>(seq_neg(self@)),
    {
        let mut out = self.arr;
        let mut i: usize = 0;
        while i < N
            invariant
                i <= N,
                out@.len() == N,
                forall|j: int| 0 <= j < i ==> out@[j] == seq_neg(self@)[j],
                forall|j: int| i <= j < N ==> out@[j] == self@[j],
            decreases N - i,
        {
            out[i] = self.arr[i].neg();
            i = i + 1;
        }
        let r = VecND { arr: out };
        proof {
            assert(r@ =~= seq_neg(self@));
            lemma_vec_of(r, seq_neg(self@));
        }
        r
    }

    fn plus(self, rhs: Self) -> (r: Self)
        ensures
            r == vec_of::<T, N>(seq_add(self@, rhs@)),
    {
        let mut out = self.arr;
        let mut i: usize = 0;
        while i < N
            invariant
                i <= N,
                out@.len() == N,
                forall|j: int| 0 <= j < i ==> out@[j] == seq_add(self@, rhs@)[j],
                forall|j: int| i <= j < N ==> out@[j] == self@[j],
            decreases N - i,
        {
            out[i] = self.arr[i].add(rhs.arr[i]);
            i = i + 1;
        }
        let r = VecND { arr: out };
        proof {
            assert(r@ =~= seq_add(self@, rhs@));
            lemma_vec_of(r, seq_add(self@, rhs@));
        }
        r
    }

    fn minus(self, rhs: Self) -> (r: Self)
        ensures
            r == vec_of::<T, N>(seq_sub(self@, rhs@)),
    {
        let mut out = self.arr;
        let mut i: usize = 0;
        while i < N
            invariant
                i <= N,
                out@.len() == N,
                forall|j: int| 0 <= j < i ==> out@[j] == seq_sub(self@, rhs@)[j],
                forall|j: int| i <= j < N ==> out@[j] == self@[j],
            decreases N - i,
        {
            out[i] = self.arr[i].sub(rhs.arr[i]);
            i = i + 1;
        }
        let r = VecND { arr: out };
        proof {
            assert(r@ =~= seq_sub(self@, rhs@));
            lemma_vec_of(r, seq_sub(self@, rhs@));
        }
        r
    }

    fn scale(self, s: T) -> (r: Self)
        ensures
            r == vec_of::<T, N>(seq_scale(self@, s)),
    {
        let mut out = self.arr;
        let mut i: usize = 0;
        while i < N
            invariant
                i <= N,
                out@.len() == N,
                forall|j: int| 0 <= j < i ==> out@[j] == seq_scale(self@, s)[j],
                forall|j: int| i <= j < N ==> out@[j] == self@[j],
            decreases N - i,
        {
            out[i] = self.arr[i].mul(s);
            i = i + 1;
        }
        let r = VecND { arr: out };
        proof {
            assert(r@ =~= seq_scale(self@, s));
            lemma_vec_of(r, seq_scale(self@, s));
        }
        r
    }

    fn scale_div(self, s: T) -> (r: Self)
        ensures
            r == vec_of::<T, N>(seq_scale_div(self@, s)),
    {
        let mut out = self.arr;
        let mut i: usize = 0;
        while i < N
            invariant
                i <= N,
                out@.len() == N,
                forall|j: int| 0 <= j < i ==> out@[j] == seq_scale_div(self@, s)[j],
                forall|j: int| i <= j < N ==> out@[j] == self@[j],
            decreases N - i,
        {
            out[i] = self.arr[i].div(s);
            i = i + 1;
        }
        let r = VecND { arr: out };
        proof {
            assert(r@ =~= seq_scale_div(self@, s));
            lemma_vec_of(r, seq_scale_div(self@, s));
        }
        r
    }
}

impl<T: Component, const N: usize> VectorRefOps<T> for VecND<T, N> {
    #[inline]
    fn ref_negated(&self) -> (r: Self) {
        VectorOps::negated(*self)
    }

    #[inline]
    fn ref_plus(&self, rhs: &Self) -> (r: Self) {
        VectorOps::plus(*self, *rhs)
    }

    #[inline]
    fn ref_minus(&self, rhs: &Self) -> (r: Self) {
        VectorOps::minus(*self, *rhs)
    }

    #[inline]
    fn ref_scale(&self, s: &T) -> (r: Self) {
        VectorOps::scale(*self, *s)
    }

    #[inline]
    fn ref_scale_div(&self, s: &T) -> (r: Self) {
        VectorOps::scale_div(*self, *s)
    }
}

impl<T: Component, const N: usize> VectorAssignOps<T> for VecND<T, N> {
    #[inline]
    fn add_assign(&mut self, rhs: Self) {
        *self = VectorOps::plus(*self, rhs);
    }

    #[inline]
    fn sub_assign(&mut self, rhs: Self) {
        *self = VectorOps::minus(*self, rhs);
    }

    #[inline]
    fn mul_assign(&mut self, s: T) {
        *self = VectorOps::scale(*self, s);
    }

    #[inline]
    fn div_assign(&mut self, s: T) {
        *self = VectorOps::scale_div(*self, s);
    }
}

impl<T: Component, const N: usize> VectorRefAssignOps<T> for VecND<T, N> {
    #[inline]
    fn ref_add_assign(&mut self, rhs: &Self) {
        *self = VectorOps::plus(*self, *rhs);
    }

    #[inline]
    fn ref_sub_assign(&mut self, rhs: &Self) {
        *self = VectorOps::minus(*self, *rhs);
    }

    #[inline]
    fn ref_mul_assign(&mut self, s: &T) {
        *self = VectorOps::scale(*self, *s);
    }

    #[inline]
    fn ref_div_assign(&mut self, s: &T) {
        *self = VectorOps::scale_div(*self, *s);
    }
}

impl<T: Component, const N: usize> Vector for VecND<T, N> {
    type Cmp = T;

    open spec fn dims() -> nat {
        N as nat
    }

    open spec fn sp_dot(self, rhs: Self) -> T {
        seq_sum(seq_products(self@, rhs@))
    }

    open spec fn sp_norm(self) -> T {
        self.sp_dot(self).sp_sqrt()
    }

    proof fn lemma_dims(self) {
    }

    #[inline]
    fn dim() -> (n: usize) {
        N
    }

    fn zero() -> (r: Self) {
        let z = T::zero();
        let r = VecND { arr: [z; N] };
        proof {
            assert(r.cs() == r@);
            assert(Self::dims() == N as nat);
            assert(r@.len() == N);
            assert(forall|i: int| 0 <= i < N ==> r@[i] == T::sp_zero());
            assert(r@ =~= seq_zero::<T>(N as nat));
        }
        r
    }

    fn is_zero(&self) -> (r: bool) {
        let mut i: usize = 0;
        while i < N
            invariant
                i <= N,
                forall|j: int| 0 <= j < i ==> (#[trigger] self@[j]).sp_is_zero(),
            decreases N - i,
        {
            if !self.arr[i].is_zero() {
                proof {
                    assert(!((*self).cs()[i as int]).sp_is_zero());
                }
                return false;
            }
            i = i + 1;
        }
        true
    }

    fn norm_sqr(self) -> (r: T) {
        let mut acc = T::zero();
        let mut i: usize = 0;
        while i < N
            invariant
                i <= N,
                acc == seq_sum(seq_products(self@, self@).take(i as int)),
            decreases N - i,
        {
            acc = acc.add(self.arr[i].mul(self.arr[i]));
            i = i + 1;
            proof {
                lemma_seq_sum_take(seq_products(self@, self@), i - 1);
            }
        }
        proof {
            assert(seq_products(self@, self@).take(N as int) =~= seq_products(self@, self@));
        }
        acc
    }

    fn dot(self, rhs: Self) -> (r: T) {
        let mut acc = T::zero();
        let mut i: usize = 0;
        while i < N
            invariant
                i <= N,
                acc == seq_sum(seq_products(self@, rhs@).take(i as int)),
            decreases N - i,
        {
            acc = acc.add(self.arr[i].mul(rhs.arr[i]));
            i = i + 1;
            proof {
                lemma_seq_sum_take(seq_products(self@, rhs@), i - 1);
            }
        }
        proof {
            assert(seq_products(self@, rhs@).take(N as int) =~= seq_products(self@, rhs@));
        }
        acc
    }

    fn is_finite(self) -> (r: bool) {
        let mut i: usize = 0;
        while i < N
            invariant
                i <= N,
                forall|j: int| 0 <= j < i ==> (#[trigger] self@[j]).sp_is_finite(),
            decreases N - i,
        {
            if !self.arr[i].is_finite() {
                proof {
                    assert(!(self.cs()[i as int]).sp_is_finite());
                }
                return false;
            }
            i = i + 1;
        }
        true
    }

    fn has_nan(self) -> (r: bool) {
        let mut i: usize = 0;
        while i < N
            invariant
                i <= N,
                forall|j: int| 0 <= j < i ==> !(#[trigger] self@[j]).sp_is_nan(),
            decreases N - i,
        {
            if self.arr[i].is_nan() {
                proof {
                    assert((self.cs()[i as int]).sp_is_nan());
                }
                return true;
            }
            i = i + 1;
        }
        false
    }

    #[inline]
    fn norm(self) -> (r: T) {
        self.norm_sqr().sqrt()
    }
}

impl<T: Component, const N: usize> core::ops::Neg for VecND<T, N> {
    type Output = VecND<T, N>;

    fn neg(self) -> (r: VecND<T, N>)
        ensures
            r@ == seq_neg(self@),
    {
        VectorOps::negated(self)
    }
}

impl<T: Component, const N: usize> vstd::std_specs::ops::NegSpecImpl for VecND<T, N> {
    open spec fn obeys_neg_spec() -> bool {
        true
    }

    open spec fn neg_req(self) -> bool {
        true
    }

    open spec fn neg_spec(self) -> VecND<T, N> {
        vec_of(seq_neg(self@))
    }
}

impl<'a, T: Component, const N: usize> core::ops::Neg for &'a VecND<T, N> {
    type Output = VecND<T, N>;

    #[inline]
    fn neg(self) -> (r: VecND<T, N>)
        ensures
            r@ == seq_neg(self@),
    {
        core::ops::Neg::neg(*self)
    }
}

impl<'a, T: Component, const N: usize> vstd::std_specs::ops::NegSpecImpl for &'a VecND<T, N> {
    open spec fn obeys_neg_spec() -> bool {
        true
    }

    open spec fn neg_req(self) -> bool {
        true
    }

    open spec fn neg_spec(self) -> VecND<T, N> {
        vec_of(seq_neg(self@))
    }
}

impl<T: Component, const N: usize> core::ops::Add<VecND<T, N>> for VecND<T, N> {
    type Output = VecND<T, N>;

    fn add(self, rhs: VecND<T, N>) -> (r: VecND<T, N>)
        ensures
            r@ == seq_add(self@, rhs@),
    {
        VectorOps::plus(self, rhs)
    }
}

impl<T: Component, const N: usize> vstd::std_specs::ops::AddSpecImpl<VecND<T, N>> for VecND<T, N> {
    open spec fn obeys_add_spec() -> bool {
        true
    }

    open spec fn add_req(self, rhs: VecND<T, N>) -> bool {
        true
    }

    open spec fn add_spec(self, rhs: VecND<T, N>) -> VecND<T, N> {
        vec_of(seq_add(self@, rhs@))
    }
}

impl<'a, T: Component, const N: usize> core::ops::Add<&'a VecND<T, N>> for VecND<T, N> {
    type Output = VecND<T, N>;

    #[inline]
    fn add(self, rhs: &'a VecND<T, N>) -> (r: VecND<T, N>)
        ensures
            r@ == seq_add(self@, rhs@),
    {
        core::ops::Add::add(self, *rhs)
    }
}

impl<'a, T: Component, const N: usize> vstd::std_specs::ops::AddSpecImpl<&'a VecND<T, N>> for VecND<T, N> {
    open spec fn obeys_add_spec() -> bool {
        true
    }

    open spec fn add_req(self, rhs: &'a VecND<T, N>) -> bool {
        true
    }

    open spec fn add_spec(self, rhs: &'a VecND<T, N>) -> VecND<T, N> {
        vec_of(seq_add(self@, rhs@))
    }
}

impl<'a, T: Component, const N: usize> core::ops::Add<VecND<T, N>> for &'a VecND<T, N> {
    type Output = VecND<T, N>;

    #[inline]
    fn add(self, rhs: VecND<T, N>) -> (r: VecND<T, N>)
        ensures
            r@ == seq_add(self@, rhs@),
    {
        core::ops::Add::add(*self, rhs)
    }
}

impl<'a, T: Component, const N: usize> vstd::std_specs::ops::AddSpecImpl<VecND<T, N>> for &'a VecND<T, N> {
    open spec fn obeys_add_spec() -> bool {
        true
    }

    open spec fn add_req(self, rhs: VecND<T, N>) -> bool {
        true
    }

    open spec fn add_spec(self, rhs: VecND<T, N>) -> VecND<T, N> {
        vec_of(seq_add(self@, rhs@))
    }
}

impl<'a, 'b, T: Component, const N: usize> core::ops::Add<&'b VecND<T, N>> for &'a VecND<T, N> {
    type Output = VecND<T, N>;

    #[inline]
    fn add(self, rhs: &'b VecND<T, N>) -> (r: VecND<T, N>)
        ensures
            r@ == seq_add(self@, rhs@),
    {
        core::ops::Add::add(*self, *rhs)
    }
}

impl<'a, 'b, T: Component, const N: usize> vstd::std_specs::ops::AddSpecImpl<&'b VecND<T, N>> for &'a VecND<T, N> {
    open spec fn obeys_add_spec() -> bool {
        true
    }

    open spec fn add_req(self, rhs: &'b VecND<T, N>) -> bool {
        true
    }

    open spec fn add_spec(self, rhs: &'b VecND<T, N>) -> VecND<T, N> {
        vec_of(seq_add(self@, rhs@))
    }
}

impl<T: Component, const N: usize> core::ops::Sub<VecND<T, N>> for VecND<T, N> {
    type Output = VecND<T, N>;

    fn sub(self, rhs: VecND<T, N>) -> (r: VecND<T, N>)
        ensures
            r@ == seq_sub(self@, rhs@),
    {
        VectorOps::minus(self, rhs)
    }
}

impl<T: Component, const N: usize> vstd::std_specs::ops::SubSpecImpl<VecND<T, N>> for VecND<T, N> {
    open spec fn obeys_sub_spec() -> bool {
        true
    }

    open spec fn sub_req(self, rhs: VecND<T, N>) -> bool {
        true
    }

    open spec fn sub_spec(self, rhs: VecND<T, N>) -> VecND<T, N> {
        vec_of(seq_sub(self@, rhs@))
    }
}

impl<'a, T: Component, const N: usize> core::ops::Sub<&'a VecND<T, N>> for VecND<T, N> {
    type Output = VecND<T, N>;

    #[inline]
    fn sub(self, rhs: &'a VecND<T, N>) -> (r: VecND<T, N>)
        ensures
            r@ == seq_sub(self@, rhs@),
    {
        core::ops::Sub::sub(self, *rhs)
    }
}

impl<'a, T: Component, const N: usize> vstd::std_specs::ops::SubSpecImpl<&'a VecND<T, N>> for VecND<T, N> {
    open spec fn obeys_sub_spec() -> bool {
        true
    }

    open spec fn sub_req(self, rhs: &'a VecND<T, N>) -> bool {
        true
    }

    open spec fn sub_spec(self, rhs: &'a VecND<T, N>) -> VecND<T, N> {
        vec_of(seq_sub(self@, rhs@))
    }
}

impl<'a, T: Component, const N: usize> core::ops::Sub<VecND<T, N>> for &'a VecND<T, N> {
    type Output = VecND<T, N>;

    #[inline]
    fn sub(self, rhs: VecND<T, N>) -> (r: VecND<T, N>)
        ensures
            r@ == seq_sub(self@, rhs@),
    {
        core::ops::Sub::sub(*self, rhs)
    }
}

impl<'a, T: Component, const N: usize> vstd::std_specs::ops::SubSpecImpl<VecND<T, N>> for &'a VecND<T, N> {
    open spec fn obeys_sub_spec() -> bool {
        true
    }

    open spec fn sub_req(self, rhs: VecND<T, N>) -> bool {
        true
    }

    open spec fn sub_spec(self, rhs: VecND<T, N>) -> VecND<T, N> {
        vec_of(seq_sub(self@, rhs@))
    }
}

impl<'a, 'b, T: Component, const N: usize> core::ops::Sub<&'b VecND<T, N>> for &'a VecND<T, N> {
    type Output = VecND<T, N>;

    #[inline]
    fn sub(self, rhs: &'b VecND<T, N>) -> (r: VecND<T, N>)
        ensures
            r@ == seq_sub(self@, rhs@),
    {
        core::ops::Sub::sub(*self, *rhs)
    }
}

impl<'a, 'b, T: Component, const N: usize> vstd::std_specs::ops::SubSpecImpl<&'b VecND<T, N>> for &'a VecND<T, N> {
    open spec fn obeys_sub_spec() -> bool {
        true
    }

    open spec fn sub_req(self, rhs: &'b VecND<T, N>) -> bool {
        true
    }

    open spec fn sub_spec(self, rhs: &'b VecND<T, N>) -> VecND<T, N> {
        vec_of(seq_sub(self@, rhs@))
    }
}

impl<T: Component, const N: usize> core::ops::Mul<T> for VecND<T, N> {
    type Output = VecND<T, N>;

    fn mul(self, rhs: T) -> (r: VecND<T, N>)
        ensures
            r@ == seq_scale(self@, rhs),
    {
        VectorOps::scale(self, rhs)
    }
}

impl<T: Component, const N: usize> vstd::std_specs::ops::MulSpecImpl<T> for VecND<T, N> {
    open spec fn obeys_mul_spec() -> bool {
        true
    }

    open spec fn mul_req(self, rhs: T) -> bool {
        true
    }

    open spec fn mul_spec(self, rhs: T) -> VecND<T, N> {
        vec_of(seq_scale(self@, rhs))
    }
}

impl<'a, T: Component, const N: usize> core::ops::Mul<&'a T> for VecND<T, N> {
    type Output = VecND<T, N>;

    #[inline]
    fn mul(self, rhs: &'a T) -> (r: VecND<T, N>)
        ensures
            r@ == seq_scale(self@, *rhs),
    {
        core::ops::Mul::mul(self, *rhs)
    }
}

impl<'a, T: Component, const N: usize> vstd::std_specs::ops::MulSpecImpl<&'a T> for VecND<T, N> {
    open spec fn obeys_mul_spec() -> bool {
        true
    }

    open spec fn mul_req(self, rhs: &'a T) -> bool {
        true
    }

    open spec fn mul_spec(self, rhs: &'a T) -> VecND<T, N> {
        vec_of(seq_scale(self@, *rhs))
    }
}

impl<'a, T: Component, const N: usize> core::ops::Mul<T> for &'a VecND<T, N> {
    type Output = VecND<T, N>;

    #[inline]
    fn mul(self, rhs: T) -> (r: VecND<T, N>)
        ensures
            r@ == seq_scale(self@, rhs),
    {
        core::ops::Mul::mul(*self, rhs)
    }
}

impl<'a, T: Component, const N: usize> vstd::std_specs::ops::MulSpecImpl<T> for &'a VecND<T, N> {
    open spec fn obeys_mul_spec() -> bool {
        true
    }

    open spec fn mul_req(self, rhs: T) -> bool {
        true
    }

    open spec fn mul_spec(self, rhs: T) -> VecND<T, N> {
        vec_of(seq_scale(self@, rhs))
    }
}

impl<'a, 'b, T: Component, const N: usize> core::ops::Mul<&'b T> for &'a VecND<T, N> {
    type Output = VecND<T, N>;

    #[inline]
    fn mul(self, rhs: &'b T) -> (r: VecND<T, N>)
        ensures
            r@ == seq_scale(self@, *rhs),
    {
        core::ops::Mul::mul(*self, *rhs)
    }
}

impl<'a, 'b, T: Component, const N: usize> vstd::std_specs::ops::MulSpecImpl<&'b T> for &'a VecND<T, N> {
    open spec fn obeys_mul_spec() -> bool {
        true
    }

    open spec fn mul_req(self, rhs: &'b T) -> bool {
        true
    }

    open spec fn mul_spec(self, rhs: &'b T) -> VecND<T, N> {
        vec_of(seq_scale(self@, *rhs))
    }
}

impl<T: Component, const N: usize> core::ops::Div<T> for VecND<T, N> {
    type Output = VecND<T, N>;

    fn div(self, rhs: T) -> (r: VecND<T, N>)
        ensures
            r@ == seq_scale_div(self@, rhs),
    {
        VectorOps::scale_div(self, rhs)
    }
}

impl<T: Component, const N: usize> vstd::std_specs::ops::DivSpecImpl<T> for VecND<T, N> {
    open spec fn obeys_div_spec() -> bool {
        true
    }

    open spec fn div_req(self, rhs: T) -> bool {
        true
    }

    open spec fn div_spec(self, rhs: T) -> VecND<T, N> {
        vec_of(seq_scale_div(self@, rhs))
    }
}

impl<'a, T: Component, const N: usize> core::ops::Div<&'a T> for VecND<T, N> {
    type Output = VecND<T, N>;

    #[inline]
    fn div(self, rhs: &'a T) -> (r: VecND<T, N>)
        ensures
            r@ == seq_scale_div(self@, *rhs),
    {
        core::ops::Div::div(self, *rhs)
    }
}

impl<'a, T: Component, const N: usize> vstd::std_specs::ops::DivSpecImpl<&'a T> for VecND<T, N> {
    open spec fn obeys_div_spec() -> bool {
        true
    }

    open spec fn div_req(self, rhs: &'a T) -> bool {
        true
    }

    open spec fn div_spec(self, rhs: &'a T) -> VecND<T, N> {
        vec_of(seq_scale_div(self@, *rhs))
    }
}

impl<'a, T: Component, const N: usize> core::ops::Div<T> for &'a VecND<T, N> {
    type Output = VecND<T, N>;

    #[inline]
    fn div(self, rhs: T) -> (r: VecND<T, N>)
        ensures
            r@ == seq_scale_div(self@, rhs),
    {
        core::ops::Div::div(*self, rhs)
    }
}

impl<'a, T: Component, const N: usize> vstd::std_specs::ops::DivSpecImpl<T> for &'a VecND<T, N> {
    open spec fn obeys_div_spec() -> bool {
        true
    }

    open spec fn div_req(self, rhs: T) -> bool {
        true
    }

    open spec fn div_spec(self, rhs: T) -> VecND<T, N> {
        vec_of(seq_scale_div(self@, rhs))
    }
}

impl<'a, 'b, T: Component, const N: usize> core::ops::Div<&'b T> for &'a VecND<T, N> {
    type Output = VecND<T, N>;

    #[inline]
    fn div(self, rhs: &'b T) -> (r: VecND<T, N>)
        ensures
            r@ == seq_scale_div(self@, *rhs),
    {
        core::ops::Div::div(*self, *rhs)
    }
}

impl<'a, 'b, T: Component, const N: usize> vstd::std_specs::ops::DivSpecImpl<&'b T> for &'a VecND<T, N> {
    open spec fn obeys_div_spec() -> bool {
        true
    }

    open spec fn div_req(self, rhs: &'b T) -> bool {
        true
    }

    open spec fn div_spec(self, rhs: &'b T) -> VecND<T, N> {
        vec_of(seq_scale_div(self@, *rhs))
    }
}

impl<T, const N: usize> From<[T; N]> for VecND<T, N> {
    /// Wraps an array as a vector, keeping the components in order.
    #[inline]
    fn from(arr: [T; N]) -> (r: VecND<T, N>)
        ensures
            r@ == arr@,
    {
        let r = VecND { arr };
        proof {
            lemma_vec_of(r, arr@);
        }
        r
    }
}

impl<T, const N: usize> vstd::std_specs::convert::FromSpecImpl<[T; N]> for VecND<T, N> {
    open spec fn obeys_from_spec() -> bool {
        true
    }

    open spec fn from_spec(arr: [T; N]) -> VecND<T, N> {
        vec_of(arr@)
    }
}

impl<T, const N: usize> From<VecND<T, N>> for [T; N] {
    /// Unwraps a vector into the array of its components, in order.
    #[inline]
    fn from(vec: VecND<T, N>) -> (r: [T; N])
        ensures
            r@ == vec@,
    {
        let r = vec.arr;
        proof {
            lemma_arr_of(r, vec@);
        }
        r
    }
}

impl<T, const N: usize> vstd::std_specs::convert::FromSpecImpl<VecND<T, N>> for [T; N] {
    open spec fn obeys_from_spec() -> bool {
        true
    }

    open spec fn from_spec(vec: VecND<T, N>) -> [T; N] {
        arr_of(vec@)
    }
}

} // verus!
