//! Numeric traits for vectors and their components, together with the
//! sequence-level model that every vector contract is stated over.
//!
//! A vector value is modelled by the sequence of its components, given by
//! [`VectorOps::cs`].  Each arithmetic operation is specified exactly: the
//! component sequence of the result is a pointwise combination of the
//! component sequences of the operands, written with the spec functions
//! below ([`seq_add`], [`seq_scale`], ...).  What a single component
//! operation returns is left to the component type itself, through the
//! uninterpreted spec functions of [`Component`].

use vstd::prelude::*;

verus! {

/// A scalar that can serve as the component of a vector.
///
/// The spec functions name the values that the executable operations
/// return; nothing further is assumed of them.  In particular no algebraic
/// law (commutativity, associativity) is built in, because the intended
/// components behave like floating-point numbers, whose operations obey
/// such laws only approximately.  The laws that do lift to vectors are
/// stated conditionally in the `laws` module.
pub trait Component: Sized + Copy {
    /// The sum of two components.
    spec fn sp_add(self, rhs: Self) -> Self;

    /// The difference of two components.
    spec fn sp_sub(self, rhs: Self) -> Self;

    /// The product of two components.
    spec fn sp_mul(self, rhs: Self) -> Self;

    /// The quotient of two components.
    spec fn sp_div(self, rhs: Self) -> Self;

    /// The negation of a component.
    spec fn sp_neg(self) -> Self;

    /// The additive zero of the component type.
    spec fn sp_zero() -> Self;

    /// The square root of a component.
    spec fn sp_sqrt(self) -> Self;

    /// The absolute value of a component.
    spec fn sp_abs(self) -> Self;

    /// Whether a component passes the zero test.
    spec fn sp_is_zero(self) -> bool;

    /// Whether a component fails the not-a-number test.
    spec fn sp_is_nan(self) -> bool;

    /// Whether a component passes the finiteness test.
    spec fn sp_is_finite(self) -> bool;

    fn add(self, rhs: Self) -> (r: Self)
        ensures
            r == self.sp_add(rhs),
    ;

    fn sub(self, rhs: Self) -> (r: Self)
        ensures
            r == self.sp_sub(rhs),
    ;

    fn mul(self, rhs: Self) -> (r: Self)
        ensures
            r == self.sp_mul(rhs),
    ;

    fn div(self, rhs: Self) -> (r: Self)
        ensures
            r == self.sp_div(rhs),
    ;

    fn neg(self) -> (r: Self)
        ensures
            r == self.sp_neg(),
    ;

    fn zero() -> (r: Self)
        ensures
            r == Self::sp_zero(),
    ;

    fn sqrt(self) -> (r: Self)
        ensures
            r == self.sp_sqrt(),
    ;

    fn abs(self) -> (r: Self)
        ensures
            r == self.sp_abs(),
    ;

    fn is_zero(self) -> (r: bool)
        ensures
            r == self.sp_is_zero(),
    ;

    fn is_nan(self) -> (r: bool)
        ensures
            r == self.sp_is_nan(),
    ;

    fn is_finite(self) -> (r: bool)
        ensures
            r == self.sp_is_finite(),
    ;
}

/// Marks a component type whose references participate in arithmetic just
/// like owned values.
///
/// Components are `Copy`, so an operand behind a reference is read and then
/// takes the owned-value path; there is no separate reference-side
/// implementation that could disagree with it.  The blanket implementation
/// below is therefore the only one.
pub trait RefComponent<Base: Component>: Sized {

}

impl<T: Component> RefComponent<T> for T {

}

/// The pointwise negation of a component sequence.
pub open spec fn seq_neg<T: Component>(a: Seq<T>) -> Seq<T> {
    Seq::new(a.len(), |i: int| a[i].sp_neg())
}

/// The pointwise sum of two component sequences of equal length.
pub open spec fn seq_add<T: Component>(a: Seq<T>, b: Seq<T>) -> Seq<T>
    recommends
        a.len() == b.len(),
{
    Seq::new(a.len(), |i: int| a[i].sp_add(b[i]))
}

/// The pointwise difference of two component sequences of equal length.
pub open spec fn seq_sub<T: Component>(a: Seq<T>, b: Seq<T>) -> Seq<T>
    recommends
        a.len() == b.len(),
{
    Seq::new(a.len(), |i: int| a[i].sp_sub(b[i]))
}

/// Every component multiplied by the scalar `s`, the scalar on the right.
pub open spec fn seq_scale<T: Component>(a: Seq<T>, s: T) -> Seq<T> {
    Seq::new(a.len(), |i: int| a[i].sp_mul(s))
}

/// Every component multiplied by the scalar `s`, the scalar on the left.
pub open spec fn seq_scale_left<T: Component>(s: T, a: Seq<T>) -> Seq<T> {
    Seq::new(a.len(), |i: int| s.sp_mul(a[i]))
}

/// Every component divided by the scalar `s`.
pub open spec fn seq_scale_div<T: Component>(a: Seq<T>, s: T) -> Seq<T> {
    Seq::new(a.len(), |i: int| a[i].sp_div(s))
}

/// `n` copies of the component zero.
pub open spec fn seq_zero<T: Component>(n: nat) -> Seq<T> {
    Seq::new(n, |i: int| T::sp_zero())
}

/// The pairwise products of two component sequences of equal length.
pub open spec fn seq_products<T: Component>(a: Seq<T>, b: Seq<T>) -> Seq<T>
    recommends
        a.len() == b.len(),
{
    Seq::new(a.len(), |i: int| a[i].sp_mul(b[i]))
}

/// The sum of a component sequence: a left-to-right fold of the component
/// addition, seeded with the component zero.
pub open spec fn seq_sum<T: Component>(s: Seq<T>) -> T
    decreases s.len(),
{
    if s.len() == 0 {
        T::sp_zero()
    } else {
        seq_sum(s.drop_last()).sp_add(s.last())
    }
}

/// Extends the sum of a prefix by one more component.
pub proof fn lemma_seq_sum_take<T: Component>(s: Seq<T>, i: int)
    requires
        0 <= i < s.len(),
    ensures
        seq_sum(s.take(i + 1)) == seq_sum(s.take(i)).sp_add(s[i]),
{
    assert(s.take(i + 1).drop_last() =~= s.take(i));
    assert(s.take(i + 1).last() == s[i]);
}

/// Whether every component of the sequence passes the finiteness test.
pub open spec fn all_finite<T: Component>(s: Seq<T>) -> bool {
    forall|i: int| 0 <= i < s.len() ==> (#[trigger] s[i]).sp_is_finite()
}

/// Whether at least one component of the sequence fails the not-a-number
/// test.
pub open spec fn some_nan<T: Component>(s: Seq<T>) -> bool {
    exists|i: int| 0 <= i < s.len() && (#[trigger] s[i]).sp_is_nan()
}

/// Whether every component of the sequence passes the zero test.
pub open spec fn all_zero<T: Component>(s: Seq<T>) -> bool {
    forall|i: int| 0 <= i < s.len() ==> (#[trigger] s[i]).sp_is_zero()
}

/// Basic operators for vectors.
///
/// [`VectorOps::cs`] gives the ordered component sequence of a vector
/// value: the mathematical model that every contract of this crate speaks
/// of.  The operations are pinned down exactly, componentwise, and
/// [`VectorOps::lemma_cs_injective`] states that the model determines the
/// value, so two results with equal component sequences are the same
/// vector.
pub trait VectorOps<Cmp: Component>: Sized + Copy {
    /// The ordered sequence of the components of this vector.
    spec fn cs(self) -> Seq<Cmp>;

    /// Two vectors with the same components are the same vector.
    proof fn lemma_cs_injective(self, other: Self)
        requires
            self.cs() == other.cs(),
        ensures
            self == other,
    ;

    /// Componentwise negation.
    fn negated(self) -> (r: Self)
        ensures
            r.cs() == seq_neg(self.cs()),
    ;

    /// Componentwise addition.
    fn plus(self, rhs: Self) -> (r: Self)
        ensures
            r.cs() == seq_add(self.cs(), rhs.cs()),
    ;

    /// Componentwise subtraction.
    fn minus(self, rhs: Self) -> (r: Self)
        ensures
            r.cs() == seq_sub(self.cs(), rhs.cs()),
    ;

    /// Every component multiplied by the scalar `s`.
    fn scale(self, s: Cmp) -> (r: Self)
        ensures
            r.cs() == seq_scale(self.cs(), s),
    ;

    /// Every component divided by the scalar `s`.
    fn scale_div(self, s: Cmp) -> (r: Self)
        ensures
            r.cs() == seq_scale_div(self.cs(), s),
    ;
}

/// Basic operators for vectors, taken through references.
///
/// The results coincide, component for component, with the owned-value
/// operations of [`VectorOps`]: the contracts here repeat the same
/// componentwise equations, which is the operand symmetry this crate
/// promises.
pub trait VectorRefOps<Cmp: Component>: VectorOps<Cmp> {
    /// Componentwise negation through a reference.
    fn ref_negated(&self) -> (r: Self)
        ensures
            r.cs() == seq_neg((*self).cs()),
    ;

    /// Componentwise addition through references.
    fn ref_plus(&self, rhs: &Self) -> (r: Self)
        ensures
            r.cs() == seq_add((*self).cs(), (*rhs).cs()),
    ;

    /// Componentwise subtraction through references.
    fn ref_minus(&self, rhs: &Self) -> (r: Self)
        ensures
            r.cs() == seq_sub((*self).cs(), (*rhs).cs()),
    ;

    /// Multiplication by a referenced scalar.
    fn ref_scale(&self, s: &Cmp) -> (r: Self)
        ensures
            r.cs() == seq_scale((*self).cs(), *s),
    ;

    /// Division by a referenced scalar.
    fn ref_scale_div(&self, s: &Cmp) -> (r: Self)
        ensures
            r.cs() == seq_scale_div((*self).cs(), *s),
    ;
}

/// Assigning operators for vectors.
///
/// Each operation mutates the receiver in place and leaves it with exactly
/// the components that the corresponding non-assigning operation of
/// [`VectorOps`] would return.
pub trait VectorAssignOps<Cmp: Component>: VectorOps<Cmp> {
    /// In-place componentwise addition.
    fn add_assign(&mut self, rhs: Self)
        ensures
            final(self).cs() == seq_add(old(self).cs(), rhs.cs()),
    ;

    /// In-place componentwise subtraction.
    fn sub_assign(&mut self, rhs: Self)
        ensures
            final(self).cs() == seq_sub(old(self).cs(), rhs.cs()),
    ;

    /// In-place multiplication by the scalar `s`.
    fn mul_assign(&mut self, s: Cmp)
        ensures
            final(self).cs() == seq_scale(old(self).cs(), s),
    ;

    /// In-place division by the scalar `s`.
    fn div_assign(&mut self, s: Cmp)
        ensures
            final(self).cs() == seq_scale_div(old(self).cs(), s),
    ;
}

/// Assigning operators for vectors with referenced right-hand sides.
///
/// The contracts coincide with those of [`VectorAssignOps`], so assigning
/// from a reference leaves the receiver exactly as assigning from the
/// owned value would.
pub trait VectorRefAssignOps<Cmp: Component>: VectorAssignOps<Cmp> {
    /// In-place componentwise addition from a referenced vector.
    fn ref_add_assign(&mut self, rhs: &Self)
        ensures
            final(self).cs() == seq_add(old(self).cs(), (*rhs).cs()),
    ;

    /// In-place componentwise subtraction of a referenced vector.
    fn ref_sub_assign(&mut self, rhs: &Self)
        ensures
            final(self).cs() == seq_sub(old(self).cs(), (*rhs).cs()),
    ;

    /// In-place multiplication by a referenced scalar.
    fn ref_mul_assign(&mut self, s: &Cmp)
        ensures
            final(self).cs() == seq_scale(old(self).cs(), *s),
    ;

    /// In-place division by a referenced scalar.
    fn ref_div_assign(&mut self, s: &Cmp)
        ensures
            final(self).cs() == seq_scale_div(old(self).cs(), *s),
    ;
}

} // verus!
