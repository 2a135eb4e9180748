//! The two-dimensional vector, with named fields.

use vstd::prelude::*;

use crate::Vector;
use crate::array::arr_of;
use crate::array::lemma_arr_of;
use crate::general::VecND;
use crate::general::vec_of;
use crate::ops::Component;
use crate::ops::VectorAssignOps;
use crate::ops::VectorOps;
use crate::ops::VectorRefAssignOps;
use crate::ops::VectorRefOps;
use crate::ops::seq_add;
use crate::ops::seq_neg;
use crate::ops::seq_scale;
use crate::ops::seq_scale_div;
use crate::ops::seq_scale_left;
use crate::ops::seq_sub;
use crate::ops::seq_zero;

verus! {

/// Two-dimensional vector.
#[derive(Clone, Copy, Debug, PartialEq, Eq)]
pub struct Vec2D<T> {
    pub x: T,
    pub y: T,
}

impl<T> Vec2D<T> {
    /// Creates the vector from its components.
    #[inline]
    pub fn new(x: T, y: T) -> (r: Vec2D<T>)
        ensures
            r.x == x,
            r.y == y,
    {
        Vec2D { x, y }
    }
}

impl<T: Component> Vec2D<T> {
    /// The product of a scalar on the left with this vector: every
    /// component is multiplied by `s`, with `s` as the left factor.
    pub fn left_mul(self, s: T) -> (r: Vec2D<T>)
        ensures
            r.x == s.sp_mul(self.x),
            r.y == s.sp_mul(self.y),
            r.cs() == seq_scale_left(s, self.cs()),
    {
        let r = Vec2D { x: s.mul(self.x), y: s.mul(self.y) };
        proof {
            assert(r.cs() =~= seq_scale_left(s, self.cs()));
        }
        r
    }
}

impl<T: Component> VectorOps<T> for Vec2D<T> {
    open spec fn cs(self) -> Seq<T> {
        seq![self.x, self.y]
    }

    proof fn lemma_cs_injective(self, other: Self) {
        assert(self.cs()[0] == self.x);
        assert(other.cs()[0] == other.x);
        assert(self.x == other.x);
        assert(self.cs()[1] == self.y);
        assert(other.cs()[1] == other.y);
        assert(self.y == other.y);
    }

    fn negated(self) -> (r: Self)
        ensures
            r.x == self.x.sp_neg(),
            r.y == self.y.sp_neg(),
    {
        let r = Vec2D { x: self.x.neg(), y: self.y.neg() };
        proof {
            assert(r.cs() =~= seq_neg(self.cs()));
        }
        r
    }

    fn plus(self, rhs: Self) -> (r: Self)
        ensures
            r.x == self.x.sp_add(rhs.x),
            r.y == self.y.sp_add(rhs.y),
    {
        let r = Vec2D { x: self.x.add(rhs.x), y: self.y.add(rhs.y) };
        proof {
            assert(r.cs() =~= seq_add(self.cs(), rhs.cs()));
        }
        r
    }

    fn minus(self, rhs: Self) -> (r: Self)
        ensures
            r.x == self.x.sp_sub(rhs.x),
            r.y == self.y.sp_sub(rhs.y),
    {
        let r = Vec2D { x: self.x.sub(rhs.x), y: self.y.sub(rhs.y) };
        proof {
            assert(r.cs() =~= seq_sub(self.cs(), rhs.cs()));
        }
        r
    }

    fn scale(self, s: T) -> (r: Self)
        ensures
            r.x == self.x.sp_mul(s),
            r.y == self.y.sp_mul(s),
    {
        let r = Vec2D { x: self.x.mul(s), y: self.y.mul(s) };
        proof {
            assert(r.cs() =~= seq_scale(self.cs(), s));
        }
        r
    }

    fn scale_div(self, s: T) -> (r: Self)
        ensures
            r.x == self.x.sp_div(s),
            r.y == self.y.sp_div(s),
    {
        let r = Vec2D { x: self.x.div(s), y: self.y.div(s) };
        proof {
            assert(r.cs() =~= seq_scale_div(self.cs(), s));
        }
        r
    }
}

impl<T: Component> VectorRefOps<T> for Vec2D<T> {
    #[inline]
    fn ref_negated(&self) -> (r: Self) {
        VectorOps::negated(*self)
    }

    #[inline]
    fn ref_plus(&self, rhs: &Self) -> (r: Self) {
        VectorOps::plus(*self, *rhs)
    }

    #[inline]
    fn ref_minus(&self, rhs: &Self) -> (r: Self) {
        VectorOps::minus(*self, *rhs)
    }

    #[inline]
    fn ref_scale(&self, s: &T) -> (r: Self) {
        VectorOps::scale(*self, *s)
    }

    #[inline]
    fn ref_scale_div(&self, s: &T) -> (r: Self) {
        VectorOps::scale_div(*self, *s)
    }
}

impl<T: Component> VectorAssignOps<T> for Vec2D<T> {
    #[inline]
    fn add_assign(&mut self, rhs: Self) {
        *self = VectorOps::plus(*self, rhs);
    }

    #[inline]
    fn sub_assign(&mut self, rhs: Self) {
        *self = VectorOps::minus(*self, rhs);
    }

    #[inline]
    fn mul_assign(&mut self, s: T) {
        *self = VectorOps::scale(*self, s);
    }

    #[inline]
    fn div_assign(&mut self, s: T) {
        *self = VectorOps::scale_div(*self, s);
    }
}

impl<T: Component> VectorRefAssignOps<T> for Vec2D<T> {
    #[inline]
    fn ref_add_assign(&mut self, rhs: &Self) {
        *self = VectorOps::plus(*self, *rhs);
    }

    #[inline]
    fn ref_sub_assign(&mut self, rhs: &Self) {
        *self = VectorOps::minus(*self, *rhs);
    }

    #[inline]
    fn ref_mul_assign(&mut self, s: &T) {
        *self = VectorOps::scale(*self, *s);
    }

    #[inline]
    fn ref_div_assign(&mut self, s: &T) {
        *self = VectorOps::scale_div(*self, *s);
    }
}

impl<T: Component> Vector for Vec2D<T> {
    type Cmp = T;

    open spec fn dims() -> nat {
        2
    }

    open spec fn sp_dot(self, rhs: Self) -> T {
        self.x.sp_mul(rhs.x).sp_add(self.y.sp_mul(rhs.y))
    }

    open spec fn sp_norm(self) -> T {
        self.sp_dot(self).sp_sqrt()
    }

    proof fn lemma_dims(self) {
    }

    #[inline]
    fn dim() -> (n: usize) {
        2
    }

    fn zero() -> (r: Self) {
        let z = T::zero();
        let r = Vec2D { x: z, y: z };
        proof {
            assert(r.cs() =~= seq_zero::<T>(2));
        }
        r
    }

    fn is_zero(&self) -> (r: bool) {
        let r = self.x.is_zero() && self.y.is_zero();
        proof {
            let s = (*self).cs();
            if r {
                assert forall|i: int| 0 <= i < s.len() implies (#[trigger] s[i]).sp_is_zero() by {
                    if i == 0 {
                        assert(s[0] == self.x);
                    } else {
                        assert(s[1] == self.y);
                    }
                }
            } else {
                if !self.x.sp_is_zero() {
                    assert(!(s[0]).sp_is_zero());
                } else {
                    assert(!(s[1]).sp_is_zero());
                }
            }
        }
        r
    }

    #[inline]
    fn norm_sqr(self) -> (r: T) {
        self.x.mul(self.x).add(self.y.mul(self.y))
    }

    #[inline]
    fn dot(self, rhs: Self) -> (r: T) {
        self.x.mul(rhs.x).add(self.y.mul(rhs.y))
    }

    fn is_finite(self) -> (r: bool) {
        let r = self.x.is_finite() && self.y.is_finite();
        proof {
            let s = self.cs();
            if r {
                assert forall|i: int| 0 <= i < s.len() implies (#[trigger] s[i]).sp_is_finite() by {
                    if i == 0 {
                        assert(s[0] == self.x);
                    } else {
                        assert(s[1] == self.y);
                    }
                }
            } else {
                if !self.x.sp_is_finite() {
                    assert(!(s[0]).sp_is_finite());
                } else {
                    assert(!(s[1]).sp_is_finite());
                }
            }
        }
        r
    }

    fn has_nan(self) -> (r: bool) {
        let r = self.x.is_nan() || self.y.is_nan();
        proof {
            let s = self.cs();
            if r {
                if self.x.sp_is_nan() {
                    assert((s[0]).sp_is_nan());
                } else {
                    assert((s[1]).sp_is_nan());
                }
            } else {
                assert forall|i: int| 0 <= i < s.len() implies !(#[trigger] s[i]).sp_is_nan() by {
                    if i == 0 {
                        assert(s[0] == self.x);
                    } else {
                        assert(s[1] == self.y);
                    }
                }
            }
        }
        r
    }

    #[inline]
    fn norm(self) -> (r: T) {
        self.norm_sqr().sqrt()
    }
}

impl<T: Component> core::ops::Neg for Vec2D<T> {
    type Output = Vec2D<T>;

    #[inline]
    fn neg(self) -> Vec2D<T> {
        Vec2D { x: self.x.neg(), y: self.y.neg() }
    }
}

impl<T: Component> vstd::std_specs::ops::NegSpecImpl for Vec2D<T> {
    open spec fn obeys_neg_spec() -> bool {
        true
    }

    open spec fn neg_req(self) -> bool {
        true
    }

    open spec fn neg_spec(self) -> Vec2D<T> {
        Vec2D { x: self.x.sp_neg(), y: self.y.sp_neg() }
    }
}

impl<'a, T: Component> core::ops::Neg for &'a Vec2D<T> {
    type Output = Vec2D<T>;

    #[inline]
    fn neg(self) -> Vec2D<T> {
        core::ops::Neg::neg(*self)
    }
}

impl<'a, T: Component> vstd::std_specs::ops::NegSpecImpl for &'a Vec2D<T> {
    open spec fn obeys_neg_spec() -> bool {
        true
    }

    open spec fn neg_req(self) -> bool {
        true
    }

    open spec fn neg_spec(self) -> Vec2D<T> {
        Vec2D { x: self.x.sp_neg(), y: self.y.sp_neg() }
    }
}

impl<T: Component> core::ops::Add<Vec2D<T>> for Vec2D<T> {
    type Output = Vec2D<T>;

    #[inline]
    fn add(self, rhs: Vec2D<T>) -> Vec2D<T> {
        Vec2D { x: self.x.add(rhs.x), y: self.y.add(rhs.y) }
    }
}

impl<T: Component> vstd::std_specs::ops::AddSpecImpl<Vec2D<T>> for Vec2D<T> {
    open spec fn obeys_add_spec() -> bool {
        true
    }

    open spec fn add_req(self, rhs: Vec2D<T>) -> bool {
        true
    }

    open spec fn add_spec(self, rhs: Vec2D<T>) -> Vec2D<T> {
        Vec2D { x: self.x.sp_add(rhs.x), y: self.y.sp_add(rhs.y) }
    }
}

impl<'a, T: Component> core::ops::Add<&'a Vec2D<T>> for Vec2D<T> {
    type Output = Vec2D<T>;

    #[inline]
    fn add(self, rhs: &'a Vec2D<T>) -> Vec2D<T> {
        core::ops::Add::add(self, *rhs)
    }
}

impl<'a, T: Component> vstd::std_specs::ops::AddSpecImpl<&'a Vec2D<T>> for Vec2D<T> {
    open spec fn obeys_add_spec() -> bool {
        true
    }

    open spec fn add_req(self, rhs: &'a Vec2D<T>) -> bool {
        true
    }

    open spec fn add_spec(self, rhs: &'a Vec2D<T>) -> Vec2D<T> {
        Vec2D { x: self.x.sp_add(rhs.x), y: self.y.sp_add(rhs.y) }
    }
}

impl<'a, T: Component> core::ops::Add<Vec2D<T>> for &'a Vec2D<T> {
    type Output = Vec2D<T>;

    #[inline]
    fn add(self, rhs: Vec2D<T>) -> Vec2D<T> {
        core::ops::Add::add(*self, rhs)
    }
}

impl<'a, T: Component> vstd::std_specs::ops::AddSpecImpl<Vec2D<T>> for &'a Vec2D<T> {
    open spec fn obeys_add_spec() -> bool {
        true
    }

    open spec fn add_req(self, rhs: Vec2D<T>) -> bool {
        true
    }

    open spec fn add_spec(self, rhs: Vec2D<T>) -> Vec2D<T> {
        Vec2D { x: self.x.sp_add(rhs.x), y: self.y.sp_add(rhs.y) }
    }
}

impl<'a, 'b, T: Component> core::ops::Add<&'b Vec2D<T>> for &'a Vec2D<T> {
    type Output = Vec2D<T>;

    #[inline]
    fn add(self, rhs: &'b Vec2D<T>) -> Vec2D<T> {
        core::ops::Add::add(*self, *rhs)
    }
}

impl<'a, 'b, T: Component> vstd::std_specs::ops::AddSpecImpl<&'b Vec2D<T>> for &'a Vec2D<T> {
    open spec fn obeys_add_spec() -> bool {
        true
    }

    open spec fn add_req(self, rhs: &'b Vec2D<T>) -> bool {
        true
    }

    open spec fn add_spec(self, rhs: &'b Vec2D<T>) -> Vec2D<T> {
        Vec2D { x: self.x.sp_add(rhs.x), y: self.y.sp_add(rhs.y) }
    }
}

impl<T: Component> core::ops::Sub<Vec2D<T>> for Vec2D<T> {
    type Output = Vec2D<T>;

    #[inline]
    fn sub(self, rhs: Vec2D<T>) -> Vec2D<T> {
        Vec2D { x: self.x.sub(rhs.x), y: self.y.sub(rhs.y) }
    }
}

impl<T: Component> vstd::std_specs::ops::SubSpecImpl<Vec2D<T>> for Vec2D<T> {
    open spec fn obeys_sub_spec() -> bool {
        true
    }

    open spec fn sub_req(self, rhs: Vec2D<T>) -> bool {
        true
    }

    open spec fn sub_spec(self, rhs: Vec2D<T>) -> Vec2D<T> {
        Vec2D { x: self.x.sp_sub(rhs.x), y: self.y.sp_sub(rhs.y) }
    }
}

impl<'a, T: Component> core::ops::Sub<&'a Vec2D<T>> for Vec2D<T> {
    type Output = Vec2D<T>;

    #[inline]
    fn sub(self, rhs: &'a Vec2D<T>) -> Vec2D<T> {
        core::ops::Sub::sub(self, *rhs)
    }
}

impl<'a, T: Component> vstd::std_specs::ops::SubSpecImpl<&'a Vec2D<T>> for Vec2D<T> {
    open spec fn obeys_sub_spec() -> bool {
        true
    }

    open spec fn sub_req(self, rhs: &'a Vec2D<T>) -> bool {
        true
    }

    open spec fn sub_spec(self, rhs: &'a Vec2D<T>) -> Vec2D<T> {
        Vec2D { x: self.x.sp_sub(rhs.x), y: self.y.sp_sub(rhs.y) }
    }
}

impl<'a, T: Component> core::ops::Sub<Vec2D<T>> for &'a Vec2D<T> {
    type Output = Vec2D<T>;

    #[inline]
    fn sub(self, rhs: Vec2D<T>) -> Vec2D<T> {
        core::ops::Sub::sub(*self, rhs)
    }
}

impl<'a, T: Component> vstd::std_specs::ops::SubSpecImpl<Vec2D<T>> for &'a Vec2D<T> {
    open spec fn obeys_sub_spec() -> bool {
        true
    }

    open spec fn sub_req(self, rhs: Vec2D<T>) -> bool {
        true
    }

    open spec fn sub_spec(self, rhs: Vec2D<T>) -> Vec2D<T> {
        Vec2D { x: self.x.sp_sub(rhs.x), y: self.y.sp_sub(rhs.y) }
    }
}

impl<'a, 'b, T: Component> core::ops::Sub<&'b Vec2D<T>> for &'a Vec2D<T> {
    type Output = Vec2D<T>;

    #[inline]
    fn sub(self, rhs: &'b Vec2D<T>) -> Vec2D<T> {
        core::ops::Sub::sub(*self, *rhs)
    }
}

impl<'a, 'b, T: Component> vstd::std_specs::ops::SubSpecImpl<&'b Vec2D<T>> for &'a Vec2D<T> {
    open spec fn obeys_sub_spec() -> bool {
        true
    }

    open spec fn sub_req(self, rhs: &'b Vec2D<T>) -> bool {
        true
    }

    open spec fn sub_spec(self, rhs: &'b Vec2D<T>) -> Vec2D<T> {
        Vec2D { x: self.x.sp_sub(rhs.x), y: self.y.sp_sub(rhs.y) }
    }
}

impl<T: Component> core::ops::Mul<T> for Vec2D<T> {
    type Output = Vec2D<T>;

    #[inline]
    fn mul(self, rhs: T) -> Vec2D<T> {
        Vec2D { x: self.x.mul(rhs), y: self.y.mul(rhs) }
    }
}

impl<T: Component> vstd::std_specs::ops::MulSpecImpl<T> for Vec2D<T> {
    open spec fn obeys_mul_spec() -> bool {
        true
    }

    open spec fn mul_req(self, rhs: T) -> bool {
        true
    }

    open spec fn mul_spec(self, rhs: T) -> Vec2D<T> {
        Vec2D { x: self.x.sp_mul(rhs), y: self.y.sp_mul(rhs) }
    }
}

impl<'a, T: Component> core::ops::Mul<&'a T> for Vec2D<T> {
    type Output = Vec2D<T>;

    #[inline]
    fn mul(self, rhs: &'a T) -> Vec2D<T> {
        core::ops::Mul::mul(self, *rhs)
    }
}

impl<'a, T: Component> vstd::std_specs::ops::MulSpecImpl<&'a T> for Vec2D<T> {
    open spec fn obeys_mul_spec() -> bool {
        true
    }

    open spec fn mul_req(self, rhs: &'a T) -> bool {
        true
    }

    open spec fn mul_spec(self, rhs: &'a T) -> Vec2D<T> {
        Vec2D { x: self.x.sp_mul(*rhs), y: self.y.sp_mul(*rhs) }
    }
}

impl<'a, T: Component> core::ops::Mul<T> for &'a Vec2D<T> {
    type Output = Vec2D<T>;

    #[inline]
    fn mul(self, rhs: T) -> Vec2D<T> {
        core::ops::Mul::mul(*self, rhs)
    }
}

impl<'a, T: Component> vstd::std_specs::ops::MulSpecImpl<T> for &'a Vec2D<T> {
    open spec fn obeys_mul_spec() -> bool {
        true
    }

    open spec fn mul_req(self, rhs: T) -> bool {
        true
    }

    open spec fn mul_spec(self, rhs: T) -> Vec2D<T> {
        Vec2D { x: self.x.sp_mul(rhs), y: self.y.sp_mul(rhs) }
    }
}

impl<'a, 'b, T: Component> core::ops::Mul<&'b T> for &'a Vec2D<T> {
    type Output = Vec2D<T>;

    #[inline]
    fn mul(self, rhs: &'b T) -> Vec2D<T> {
        core::ops::Mul::mul(*self, *rhs)
    }
}

impl<'a, 'b, T: Component> vstd::std_specs::ops::MulSpecImpl<&'b T> for &'a Vec2D<T> {
    open spec fn obeys_mul_spec() -> bool {
        true
    }

    open spec fn mul_req(self, rhs: &'b T) -> bool {
        true
    }

    open spec fn mul_spec(self, rhs: &'b T) -> Vec2D<T> {
        Vec2D { x: self.x.sp_mul(*rhs), y: self.y.sp_mul(*rhs) }
    }
}

impl<T: Component> core::ops::Div<T> for Vec2D<T> {
    type Output = Vec2D<T>;

    #[inline]
    fn div(self, rhs: T) -> Vec2D<T> {
        Vec2D { x: self.x.div(rhs), y: self.y.div(rhs) }
    }
}

impl<T: Component> vstd::std_specs::ops::DivSpecImpl<T> for Vec2D<T> {
    open spec fn obeys_div_spec() -> bool {
        true
    }

    open spec fn div_req(self, rhs: T) -> bool {
        true
    }

    open spec fn div_spec(self, rhs: T) -> Vec2D<T> {
        Vec2D { x: self.x.sp_div(rhs), y: self.y.sp_div(rhs) }
    }
}

impl<'a, T: Component> core::ops::Div<&'a T> for Vec2D<T> {
    type Output = Vec2D<T>;

    #[inline]
    fn div(self, rhs: &'a T) -> Vec2D<T> {
        core::ops::Div::div(self, *rhs)
    }
}

impl<'a, T: Component> vstd::std_specs::ops::DivSpecImpl<&'a T> for Vec2D<T> {
    open spec fn obeys_div_spec() -> bool {
        true
    }

    open spec fn div_req(self, rhs: &'a T) -> bool {
        true
    }

    open spec fn div_spec(self, rhs: &'a T) -> Vec2D<T> {
        Vec2D { x: self.x.sp_div(*rhs), y: self.y.sp_div(*rhs) }
    }
}

impl<'a, T: Component> core::ops::Div<T> for &'a Vec2D<T> {
    type Output = Vec2D<T>;

    #[inline]
    fn div(self, rhs: T) -> Vec2D<T> {
        core::ops::Div::div(*self, rhs)
    }
}

impl<'a, T: Component> vstd::std_specs::ops::DivSpecImpl<T> for &'a Vec2D<T> {
    open spec fn obeys_div_spec() -> bool {
        true
    }

    open spec fn div_req(self, rhs: T) -> bool {
        true
    }

    open spec fn div_spec(self, rhs: T) -> Vec2D<T> {
        Vec2D { x: self.x.sp_div(rhs), y: self.y.sp_div(rhs) }
    }
}

impl<'a, 'b, T: Component> core::ops::Div<&'b T> for &'a Vec2D<T> {
    type Output = Vec2D<T>;

    #[inline]
    fn div(self, rhs: &'b T) -> Vec2D<T> {
        core::ops::Div::div(*self, *rhs)
    }
}

impl<'a, 'b, T: Component> vstd::std_specs::ops::DivSpecImpl<&'b T> for &'a Vec2D<T> {
    open spec fn obeys_div_spec() -> bool {
        true
    }

    open spec fn div_req(self, rhs: &'b T) -> bool {
        true
    }

    open spec fn div_spec(self, rhs: &'b T) -> Vec2D<T> {
        Vec2D { x: self.x.sp_div(*rhs), y: self.y.sp_div(*rhs) }
    }
}

impl<T: Copy> From<[T; 2]> for Vec2D<T> {
    /// Builds the vector from an array, keeping the components in order.
    #[inline]
    fn from(a: [T; 2]) -> (r: Vec2D<T>)
        ensures
            r.x == a@[0],
            r.y == a@[1],
    {
        Vec2D { x: a[0], y: a[1] }
    }
}

impl<T: Copy> vstd::std_specs::convert::FromSpecImpl<[T; 2]> for Vec2D<T> {
    open spec fn obeys_from_spec() -> bool {
        true
    }

    open spec fn from_spec(a: [T; 2]) -> Vec2D<T> {
        Vec2D { x: a@[0], y: a@[1] }
    }
}

impl<T> From<Vec2D<T>> for [T; 2] {
    /// Unpacks the vector into an array, keeping the components in order.
    #[inline]
    fn from(v: Vec2D<T>) -> (r: [T; 2])
        ensures
            r@ == seq![v.x, v.y],
    {
        let r = [v.x, v.y];
        proof {
            assert(r@ =~= seq![v.x, v.y]);
            lemma_arr_of(r, seq![v.x, v.y]);
        }
        r
    }
}

impl<T> vstd::std_specs::convert::FromSpecImpl<Vec2D<T>> for [T; 2] {
    open spec fn obeys_from_spec() -> bool {
        true
    }

    open spec fn from_spec(v: Vec2D<T>) -> [T; 2] {
        arr_of(seq![v.x, v.y])
    }
}

impl<T> From<(T, T)> for Vec2D<T> {
    /// Builds the vector from a tuple, keeping the components in order.
    #[inline]
    fn from(t: (T, T)) -> (r: Vec2D<T>)
        ensures
            r.x == t.0,
            r.y == t.1,
    {
        Vec2D { x: t.0, y: t.1 }
    }
}

impl<T> vstd::std_specs::convert::FromSpecImpl<(T, T)> for Vec2D<T> {
    open spec fn obeys_from_spec() -> bool {
        true
    }

    open spec fn from_spec(t: (T, T)) -> Vec2D<T> {
        Vec2D { x: t.0, y: t.1 }
    }
}

impl<T> From<Vec2D<T>> for (T, T) {
    /// Unpacks the vector into a tuple, keeping the components in order.
    #[inline]
    fn from(v: Vec2D<T>) -> (r: (T, T))
        ensures
            r.0 == v.x,
            r.1 == v.y,
    {
        (v.x, v.y, )
    }
}

impl<T> vstd::std_specs::convert::FromSpecImpl<Vec2D<T>> for (T, T) {
    open spec fn obeys_from_spec() -> bool {
        true
    }

    open spec fn from_spec(v: Vec2D<T>) -> (T, T) {
        (v.x, v.y, )
    }
}

impl<T: Copy> From<VecND<T, 2>> for Vec2D<T> {
    /// Builds the named-field vector from the general vector of the
    /// same dimension, keeping the components in order.
    #[inline]
    fn from(g: VecND<T, 2>) -> (r: Vec2D<T>)
        ensures
            r.x == g@[0],
            r.y == g@[1],
    {
        let a: [T; 2] = core::convert::From::from(g);
        Vec2D { x: a[0], y: a[1] }
    }
}

impl<T: Copy> vstd::std_specs::convert::FromSpecImpl<VecND<T, 2>> for Vec2D<T> {
    open spec fn obeys_from_spec() -> bool {
        true
    }

    open spec fn from_spec(g: VecND<T, 2>) -> Vec2D<T> {
        Vec2D { x: g@[0], y: g@[1] }
    }
}

impl<T> From<Vec2D<T>> for VecND<T, 2> {
    /// Builds the general vector from the named-field vector of the
    /// same dimension, keeping the components in order.
    #[inline]
    fn from(v: Vec2D<T>) -> (r: VecND<T, 2>)
        ensures
            r@ == seq![v.x, v.y],
    {
        let a: [T; 2] = [v.x, v.y];
        proof {
            assert(a@ =~= seq![v.x, v.y]);
        }
        VecND::from(a)
    }
}

impl<T> vstd::std_specs::convert::FromSpecImpl<Vec2D<T>> for VecND<T, 2> {
    open spec fn obeys_from_spec() -> bool {
        true
    }

    open spec fn from_spec(v: Vec2D<T>) -> VecND<T, 2> {
        vec_of(seq![v.x, v.y])
    }
}

} // verus!
