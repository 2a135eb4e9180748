//! The one-dimensional vector, with named fields.

use vstd::prelude::*;

use crate::Vector;
use crate::array::arr_of;
use crate::array::lemma_arr_of;
use crate::general::VecND;
use crate::general::vec_of;
use crate::ops::Component;
use crate::ops::VectorAssignOps;
use crate::ops::VectorOps;
use crate::ops::VectorRefAssignOps;
use crate::ops::VectorRefOps;
use crate::ops::seq_add;
use crate::ops::seq_neg;
use crate::ops::seq_scale;
use crate::ops::seq_scale_div;
use crate::ops::seq_scale_left;
use crate::ops::seq_sub;
use crate::ops::seq_zero;

verus! {

/// One-dimensional vector.
#[derive(Clone, Copy, Debug, PartialEq, Eq)]
pub struct Vec1D<T> {
    pub x: T,
}

impl<T> Vec1D<T> {
    /// Creates the vector from its components.
    #[inline]
    pub fn new(x: T) -> (r: Vec1D<T>)
        ensures
            r.x == x,
    {
        Vec1D { x }
    }
}

impl<T: Component> Vec1D<T> {
    /// The product of a scalar on the left with this vector: every
    /// component is multiplied by `s`, with `s` as the left factor.
    pub fn left_mul(self, s: T) -> (r: Vec1D<T>)
        ensures
            r.x == s.sp_mul(self.x),
            r.cs() == seq_scale_left(s, self.cs()),
    {
        let r = Vec1D { x: s.mul(self.x) };
        proof {
            assert(r.cs() =~= seq_scale_left(s, self.cs()));
        }
        r
    }
}

impl<T: Component> VectorOps<T> for Vec1D<T> {
    open spec fn cs(self) -> Seq<T> {
        seq![self.x]
    }

    proof fn lemma_cs_injective(self, other: Self) {
        assert(self.cs()[0] == self.x);
        assert(other.cs()[0] == other.x);
        assert(self.x == other.x);
    }

    fn negated(self) -> (r: Self)
        ensures
            r.x == self.x.sp_neg(),
    {
        let r = Vec1D { x: self.x.neg() };
        proof {
            assert(r.cs() =~= seq_neg(self.cs()));
        }
        r
    }

    fn plus(self, rhs: Self) -> (r: Self)
        ensures
            r.x == self.x.sp_add(rhs.x),
    {
        let r = Vec1D { x: self.x.add(rhs.x) };
        proof {
            assert(r.cs() =~= seq_add(self.cs(), rhs.cs()));
        }
        r
    }

    fn minus(self, rhs: Self) -> (r: Self)
        ensures
            r.x == self.x.sp_sub(rhs.x),
    {
        let r = Vec1D { x: self.x.sub(rhs.x) };
        proof {
            assert(r.cs() =~= seq_sub(self.cs(), rhs.cs()));
        }
        r
    }

    fn scale(self, s: T) -> (r: Self)
        ensures
            r.x == self.x.sp_mul(s),
    {
        let r = Vec1D { x: self.x.mul(s) };
        proof {
            assert(r.cs() =~= seq_scale(self.cs(), s));
        }
        r
    }

    fn scale_div(self, s: T) -> (r: Self)
        ensures
            r.x == self.x.sp_div(s),
    {
        let r = Vec1D { x: self.x.div(s) };
        proof {
            assert(r.cs() =~= seq_scale_div(self.cs(), s));
        }
        r
    }
}

impl<T: Component> VectorRefOps<T> for Vec1D<T> {
    #[inline]
    fn ref_negated(&self) -> (r: Self) {
        VectorOps::negated(*self)
    }

    #[inline]
    fn ref_plus(&self, rhs: &Self) -> (r: Self) {
        VectorOps::plus(*self, *rhs)
    }

    #[inline]
    fn ref_minus(&self, rhs: &Self) -> (r: Self) {
        VectorOps::minus(*self, *rhs)
    }

    #[inline]
    fn ref_scale(&self, s: &T) -> (r: Self) {
        VectorOps::scale(*self, *s)
    }

    #[inline]
    fn ref_scale_div(&self, s: &T) -> (r: Self) {
        VectorOps::scale_div(*self, *s)
    }
}

impl<T: Component> VectorAssignOps<T> for Vec1D<T> {
    #[inline]
    fn add_assign(&mut self, rhs: Self) {
        *self = VectorOps::plus(*self, rhs);
    }

    #[inline]
    fn sub_assign(&mut self, rhs: Self) {
        *self = VectorOps::minus(*self, rhs);
    }

    #[inline]
    fn mul_assign(&mut self, s: T) {
        *self = VectorOps::scale(*self, s);
    }

    #[inline]
    fn div_assign(&mut self, s: T) {
        *self = VectorOps::scale_div(*self, s);
    }
}

impl<T: Component> VectorRefAssignOps<T> for Vec1D<T> {
    #[inline]
    fn ref_add_assign(&mut self, rhs: &Self) {
        *self = VectorOps::plus(*self, *rhs);
    }

    #[inline]
    fn ref_sub_assign(&mut self, rhs: &Self) {
        *self = VectorOps::minus(*self, *rhs);
    }

    #[inline]
    fn ref_mul_assign(&mut self, s: &T) {
        *self = VectorOps::scale(*self, *s);
    }

    #[inline]
    fn ref_div_assign(&mut self, s: &T) {
        *self = VectorOps::scale_div(*self, *s);
    }
}

impl<T: Component> Vector for Vec1D<T> {
    type Cmp = T;

    open spec fn dims() -> nat {
        1
    }

    open spec fn sp_dot(self, rhs: Self) -> T {
        self.x.sp_mul(rhs.x)
    }

    open spec fn sp_norm(self) -> T {
        self.x.sp_abs()
    }

    proof fn lemma_dims(self) {
    }

    #[inline]
    fn dim() -> (n: usize) {
        1
    }

    fn zero() -> (r: Self) {
        let z = T::zero();
        let r = Vec1D { x: z };
        proof {
            assert(r.cs() =~= seq_zero::<T>(1));
        }
        r
    }

    fn is_zero(&self) -> (r: bool) {
        let r = self.x.is_zero();
        proof {
            let s = (*self).cs();
            if r {
                assert forall|i: int| 0 <= i < s.len() implies (#[trigger] s[i]).sp_is_zero() by {
                    assert(s[0] == self.x);
                }
            } else {
                assert(!(s[0]).sp_is_zero());
            }
        }
        r
    }

    #[inline]
    fn norm_sqr(self) -> (r: T) {
        self.x.mul(self.x)
    }

    #[inline]
    fn dot(self, rhs: Self) -> (r: T) {
        self.x.mul(rhs.x)
    }

    fn is_finite(self) -> (r: bool) {
        let r = self.x.is_finite();
        proof {
            let s = self.cs();
            if r {
                assert forall|i: int| 0 <= i < s.len() implies (#[trigger] s[i]).sp_is_finite() by {
                    assert(s[0] == self.x);
                }
            } else {
                assert(!(s[0]).sp_is_finite());
            }
        }
        r
    }

    fn has_nan(self) -> (r: bool) {
        let r = self.x.is_nan();
        proof {
            let s = self.cs();
            if r {
                assert((s[0]).sp_is_nan());
            } else {
                assert forall|i: int| 0 <= i < s.len() implies !(#[trigger] s[i]).sp_is_nan() by {
                    assert(s[0] == self.x);
                }
            }
        }
        r
    }

    #[inline]
    fn norm(self) -> (r: T) {
        self.x.abs()
    }
}

impl<T: Component> core::ops::Neg for Vec1D<T> {
    type Output = Vec1D<T>;

    #[inline]
    fn neg(self) -> Vec1D<T> {
        Vec1D { x: self.x.neg() }
    }
}

impl<T: Component> vstd::std_specs::ops::NegSpecImpl for Vec1D<T> {
    open spec fn obeys_neg_spec() -> bool {
        true
    }

    open spec fn neg_req(self) -> bool {
        true
    }

    open spec fn neg_spec(self) -> Vec1D<T> {
        Vec1D { x: self.x.sp_neg() }
    }
}

impl<'a, T: Component> core::ops::Neg for &'a Vec1D<T> {
    type Output = Vec1D<T>;

    #[inline]
    fn neg(self) -> Vec1D<T> {
        core::ops::Neg::neg(*self)
    }
}

impl<'a, T: Component> vstd::std_specs::ops::NegSpecImpl for &'a Vec1D<T> {
    open spec fn obeys_neg_spec() -> bool {
        true
    }

    open spec fn neg_req(self) -> bool {
        true
    }

    open spec fn neg_spec(self) -> Vec1D<T> {
        Vec1D { x: self.x.sp_neg() }
    }
}

impl<T: Component> core::ops::Add<Vec1D<T>> for Vec1D<T> {
    type Output = Vec1D<T>;

    #[inline]
    fn add(self, rhs: Vec1D<T>) -> Vec1D<T> {
        Vec1D { x: self.x.add(rhs.x) }
    }
}

impl<T: Component> vstd::std_specs::ops::AddSpecImpl<Vec1D<T>> for Vec1D<T> {
    open spec fn obeys_add_spec() -> bool {
        true
    }

    open spec fn add_req(self, rhs: Vec1D<T>) -> bool {
        true
    }

    open spec fn add_spec(self, rhs: Vec1D<T>) -> Vec1D<T> {
        Vec1D { x: self.x.sp_add(rhs.x) }
    }
}

impl<'a, T: Component> core::ops::Add<&'a Vec1D<T>> for Vec1D<T> {
    type Output = Vec1D<T>;

    #[inline]
    fn add(self, rhs: &'a Vec1D<T>) -> Vec1D<T> {
        core::ops::Add::add(self, *rhs)
    }
}

impl<'a, T: Component> vstd::std_specs::ops::AddSpecImpl<&'a Vec1D<T>> for Vec1D<T> {
    open spec fn obeys_add_spec() -> bool {
        true
    }

    open spec fn add_req(self, rhs: &'a Vec1D<T>) -> bool {
        true
    }

    open spec fn add_spec(self, rhs: &'a Vec1D<T>) -> Vec1D<T> {
        Vec1D { x: self.x.sp_add(rhs.x) }
    }
}

impl<'a, T: Component> core::ops::Add<Vec1D<T>> for &'a Vec1D<T> {
    type Output = Vec1D<T>;

    #[inline]
    fn add(self, rhs: Vec1D<T>) -> Vec1D<T> {
        core::ops::Add::add(*self, rhs)
    }
}

impl<'a, T: Component> vstd::std_specs::ops::AddSpecImpl<Vec1D<T>> for &'a Vec1D<T> {
    open spec fn obeys_add_spec() -> bool {
        true
    }

    open spec fn add_req(self, rhs: Vec1D<T>) -> bool {
        true
    }

    open spec fn add_spec(self, rhs: Vec1D<T>) -> Vec1D<T> {
        Vec1D { x: self.x.sp_add(rhs.x) }
    }
}

impl<'a, 'b, T: Component> core::ops::Add<&'b Vec1D<T>> for &'a Vec1D<T> {
    type Output = Vec1D<T>;

    #[inline]
    fn add(self, rhs: &'b Vec1D<T>) -> Vec1D<T> {
        core::ops::Add::add(*self, *rhs)
    }
}

impl<'a, 'b, T: Component> vstd::std_specs::ops::AddSpecImpl<&'b Vec1D<T>> for &'a Vec1D<T> {
    open spec fn obeys_add_spec() -> bool {
        true
    }

    open spec fn add_req(self, rhs: &'b Vec1D<T>) -> bool {
        true
    }

    open spec fn add_spec(self, rhs: &'b Vec1D<T>) -> Vec1D<T> {
        Vec1D { x: self.x.sp_add(rhs.x) }
    }
}

impl<T: Component> core::ops::Sub<Vec1D<T>> for Vec1D<T> {
    type Output = Vec1D<T>;

    #[inline]
    fn sub(self, rhs: Vec1D<T>) -> Vec1D<T> {
        Vec1D { x: self.x.sub(rhs.x) }
    }
}

impl<T: Component> vstd::std_specs::ops::SubSpecImpl<Vec1D<T>> for Vec1D<T> {
    open spec fn obeys_sub_spec() -> bool {
        true
    }

    open spec fn sub_req(self, rhs: Vec1D<T>) -> bool {
        true
    }

    open spec fn sub_spec(self, rhs: Vec1D<T>) -> Vec1D<T> {
        Vec1D { x: self.x.sp_sub(rhs.x) }
    }
}

impl<'a, T: Component> core::ops::Sub<&'a Vec1D<T>> for Vec1D<T> {
    type Output = Vec1D<T>;

    #[inline]
    fn sub(self, rhs: &'a Vec1D<T>) -> Vec1D<T> {
        core::ops::Sub::sub(self, *rhs)
    }
}

impl<'a, T: Component> vstd::std_specs::ops::SubSpecImpl<&'a Vec1D<T>> for Vec1D<T> {
    open spec fn obeys_sub_spec() -> bool {
        true
    }

    open spec fn sub_req(self, rhs: &'a Vec1D<T>) -> bool {
        true
    }

    open spec fn sub_spec(self, rhs: &'a Vec1D<T>) -> Vec1D<T> {
        Vec1D { x: self.x.sp_sub(rhs.x) }
    }
}

impl<'a, T: Component> core::ops::Sub<Vec1D<T>> for &'a Vec1D<T> {
    type Output = Vec1D<T>;

    #[inline]
    fn sub(self, rhs: Vec1D<T>) -> Vec1D<T> {
        core::ops::Sub::sub(*self, rhs)
    }
}

impl<'a, T: Component> vstd::std_specs::ops::SubSpecImpl<Vec1D<T>> for &'a Vec1D<T> {
    open spec fn obeys_sub_spec() -> bool {
        true
    }

    open spec fn sub_req(self, rhs: Vec1D<T>) -> bool {
        true
    }

    open spec fn sub_spec(self, rhs: Vec1D<T>) -> Vec1D<T> {
        Vec1D { x: self.x.sp_sub(rhs.x) }
    }
}

impl<'a, 'b, T: Component> core::ops::Sub<&'b Vec1D<T>> for &'a Vec1D<T> {
    type Output = Vec1D<T>;

    #[inline]
    fn sub(self, rhs: &'b Vec1D<T>) -> Vec1D<T> {
        core::ops::Sub::sub(*self, *rhs)
    }
}

impl<'a, 'b, T: Component> vstd::std_specs::ops::SubSpecImpl<&'b Vec1D<T>> for &'a Vec1D<T> {
    open spec fn obeys_sub_spec() -> bool {
        true
    }

    open spec fn sub_req(self, rhs: &'b Vec1D<T>) -> bool {
        true
    }

    open spec fn sub_spec(self, rhs: &'b Vec1D<T>) -> Vec1D<T> {
        Vec1D { x: self.x.sp_sub(rhs.x) }
    }
}

impl<T: Component> core::ops::Mul<T> for Vec1D<T> {
    type Output = Vec1D<T>;

    #[inline]
    fn mul(self, rhs: T) -> Vec1D<T> {
        Vec1D { x: self.x.mul(rhs) }
    }
}

impl<T: Component> vstd::std_specs::ops::MulSpecImpl<T> for Vec1D<T> {
    open spec fn obeys_mul_spec() -> bool {
        true
    }

    open spec fn mul_req(self, rhs: T) -> bool {
        true
    }

    open spec fn mul_spec(self, rhs: T) -> Vec1D<T> {
        Vec1D { x: self.x.sp_mul(rhs) }
    }
}

impl<'a, T: Component> core::ops::Mul<&'a T> for Vec1D<T> {
    type Output = Vec1D<T>;

    #[inline]
    fn mul(self, rhs: &'a T) -> Vec1D<T> {
        core::ops::Mul::mul(self, *rhs)
    }
}

impl<'a, T: Component> vstd::std_specs::ops::MulSpecImpl<&'a T> for Vec1D<T> {
    open spec fn obeys_mul_spec() -> bool {
        true
    }

    open spec fn mul_req(self, rhs: &'a T) -> bool {
        true
    }

    open spec fn mul_spec(self, rhs: &'a T) -> Vec1D<T> {
        Vec1D { x: self.x.sp_mul(*rhs) }
    }
}

impl<'a, T: Component> core::ops::Mul<T> for &'a Vec1D<T> {
    type Output = Vec1D<T>;

    #[inline]
    fn mul(self, rhs: T) -> Vec1D<T> {
        core::ops::Mul::mul(*self, rhs)
    }
}

impl<'a, T: Component> vstd::std_specs::ops::MulSpecImpl<T> for &'a Vec1D<T> {
    open spec fn obeys_mul_spec() -> bool {
        true
    }

    open spec fn mul_req(self, rhs: T) -> bool {
        true
    }

    open spec fn mul_spec(self, rhs: T) -> Vec1D<T> {
        Vec1D { x: self.x.sp_mul(rhs) }
    }
}

impl<'a, 'b, T: Component> core::ops::Mul<&'b T> for &'a Vec1D<T> {
    type Output = Vec1D<T>;

    #[inline]
    fn mul(self, rhs: &'b T) -> Vec1D<T> {
        core::ops::Mul::mul(*self, *rhs)
    }
}

impl<'a, 'b, T: Component> vstd::std_specs::ops::MulSpecImpl<&'b T> for &'a Vec1D<T> {
    open spec fn obeys_mul_spec() -> bool {
        true
    }

    open spec fn mul_req(self, rhs: &'b T) -> bool {
        true
    }

    open spec fn mul_spec(self, rhs: &'b T) -> Vec1D<T> {
        Vec1D { x: self.x.sp_mul(*rhs) }
    }
}

impl<T: Component> core::ops::Div<T> for Vec1D<T> {
    type Output = Vec1D<T>;

    #[inline]
    fn div(self, rhs: T) -> Vec1D<T> {
        Vec1D { x: self.x.div(rhs) }
    }
}

impl<T: Component> vstd::std_specs::ops::DivSpecImpl<T> for Vec1D<T> {
    open spec fn obeys_div_spec() -> bool {
        true
    }

    open spec fn div_req(self, rhs: T) -> bool {
        true
    }

    open spec fn div_spec(self, rhs: T) -> Vec1D<T> {
        Vec1D { x: self.x.sp_div(rhs) }
    }
}

impl<'a, T: Component> core::ops::Div<&'a T> for Vec1D<T> {
    type Output = Vec1D<T>;

    #[inline]
    fn div(self, rhs: &'a T) -> Vec1D<T> {
        core::ops::Div::div(self, *rhs)
    }
}

impl<'a, T: Component> vstd::std_specs::ops::DivSpecImpl<&'a T> for Vec1D<T> {
    open spec fn obeys_div_spec() -> bool {
        true
    }

    open spec fn div_req(self, rhs: &'a T) -> bool {
        true
    }

    open spec fn div_spec(self, rhs: &'a T) -> Vec1D<T> {
        Vec1D { x: self.x.sp_div(*rhs) }
    }
}

impl<'a, T: Component> core::ops::Div<T> for &'a Vec1D<T> {
    type Output = Vec1D<T>;

    #[inline]
    fn div(self, rhs: T) -> Vec1D<T> {
        core::ops::Div::div(*self, rhs)
    }
}

impl<'a, T: Component> vstd::std_specs::ops::DivSpecImpl<T> for &'a Vec1D<T> {
    open spec fn obeys_div_spec() -> bool {
        true
    }

    open spec fn div_req(self, rhs: T) -> bool {
        true
    }

    open spec fn div_spec(self, rhs: T) -> Vec1D<T> {
        Vec1D { x: self.x.sp_div(rhs) }
    }
}

impl<'a, 'b, T: Component> core::ops::Div<&'b T> for &'a Vec1D<T> {
    type Output = Vec1D<T>;

    #[inline]
    fn div(self, rhs: &'b T) -> Vec1D<T> {
        core::ops::Div::div(*self, *rhs)
    }
}

impl<'a, 'b, T: Component> vstd::std_specs::ops::DivSpecImpl<&'b T> for &'a Vec1D<T> {
    open spec fn obeys_div_spec() -> bool {
        true
    }

    open spec fn div_req(self, rhs: &'b T) -> bool {
        true
    }

    open spec fn div_spec(self, rhs: &'b T) -> Vec1D<T> {
        Vec1D { x: self.x.sp_div(*rhs) }
    }
}

impl<T: Copy> From<[T; 1]> for Vec1D<T> {
    /// Builds the vector from an array, keeping the components in order.
    #[inline]
    fn from(a: [T; 1]) -> (r: Vec1D<T>)
        ensures
            r.x == a@[0],
    {
        Vec1D { x: a[0] }
    }
}

impl<T: Copy> vstd::std_specs::convert::FromSpecImpl<[T; 1]> for Vec1D<T> {
    open spec fn obeys_from_spec() -> bool {
        true
    }

    open spec fn from_spec(a: [T; 1]) -> Vec1D<T> {
        Vec1D { x: a@[0] }
    }
}

impl<T> From<Vec1D<T>> for [T; 1] {
    /// Unpacks the vector into an array, keeping the components in order.
    #[inline]
    fn from(v: Vec1D<T>) -> (r: [T; 1])
        ensures
            r@ == seq![v.x],
    {
        let r = [v.x];
        proof {
            assert(r@ =~= seq![v.x]);
            lemma_arr_of(r, seq![v.x]);
        }
        r
    }
}

impl<T> vstd::std_specs::convert::FromSpecImpl<Vec1D<T>> for [T; 1] {
    open spec fn obeys_from_spec() -> bool {
        true
    }

    open spec fn from_spec(v: Vec1D<T>) -> [T; 1] {
        arr_of(seq![v.x])
    }
}

impl<T> From<(T,)> for Vec1D<T> {
    /// Builds the vector from a tuple, keeping the components in order.
    #[inline]
    fn from(t: (T,)) -> (r: Vec1D<T>)
        ensures
            r.x == t.0,
    {
        Vec1D { x: t.0 }
    }
}

impl<T> vstd::std_specs::convert::FromSpecImpl<(T,)> for Vec1D<T> {
    open spec fn obeys_from_spec() -> bool {
        true
    }

    open spec fn from_spec(t: (T,)) -> Vec1D<T> {
        Vec1D { x: t.0 }
    }
}

impl<T> From<Vec1D<T>> for (T,) {
    /// Unpacks the vector into a tuple, keeping the components in order.
    #[inline]
    fn from(v: Vec1D<T>) -> (r: (T,))
        ensures
            r.0 == v.x,
    {
        (v.x, )
    }
}

impl<T> vstd::std_specs::convert::FromSpecImpl<Vec1D<T>> for (T,) {
    open spec fn obeys_from_spec() -> bool {
        true
    }

    open spec fn from_spec(v: Vec1D<T>) -> (T,) {
        (v.x, )
    }
}

impl<T: Copy> From<VecND<T, 1>> for Vec1D<T> {
    /// Builds the named-field vector from the general vector of the
    /// same dimension, keeping the components in order.
    #[inline]
    fn from(g: VecND<T, 1>) -> (r: Vec1D<T>)
        ensures
            r.x == g@[0],
    {
        let a: [T; 1] = core::convert::From::from(g);
        Vec1D { x: a[0] }
    }
}

impl<T: Copy> vstd::std_specs::convert::FromSpecImpl<VecND<T, 1>> for Vec1D<T> {
    open spec fn obeys_from_spec() -> bool {
        true
    }

    open spec fn from_spec(g: VecND<T, 1>) -> Vec1D<T> {
        Vec1D { x: g@[0] }
    }
}

impl<T> From<Vec1D<T>> for VecND<T, 1> {
    /// Builds the general vector from the named-field vector of the
    /// same dimension, keeping the components in order.
    #[inline]
    fn from(v: Vec1D<T>) -> (r: VecND<T, 1>)
        ensures
            r@ == seq![v.x],
    {
        let a: [T; 1] = [v.x];
        proof {
            assert(a@ =~= seq![v.x]);
        }
        VecND::from(a)
    }
}

impl<T> vstd::std_specs::convert::FromSpecImpl<Vec1D<T>> for VecND<T, 1> {
    open spec fn obeys_from_spec() -> bool {
        true
    }

    open spec fn from_spec(v: Vec1D<T>) -> VecND<T, 1> {
        vec_of(seq![v.x])
    }
}

} // verus!
