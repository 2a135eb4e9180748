//! # ndvec
//!
//! Simple low-dimensional vectors, with verified contracts.
//!
//! The crate offers a general vector type for any compile-time dimension
//! and named-field vectors for one, two and three dimensions, all generic
//! over a scalar that implements [`Component`].  Every vector type
//! satisfies the same [`Vector`] contract; arithmetic is available both as
//! the usual operators (for owned values and references alike) and as the
//! methods of the operator traits, and each operation is specified
//! exactly, component for component.
//!
//! This crate intentionally does not support operators for element-wise
//! product and so on.

mod array;
mod fixed;
mod general;
mod laws;
mod ops;

pub use crate::array::arr_of;
pub use crate::array::arr_zip_map;
pub use crate::array::lemma_arr_of;
pub use crate::fixed::Vec1D;
pub use crate::fixed::Vec2D;
pub use crate::fixed::Vec3D;
pub use crate::general::VecND;
pub use crate::general::lemma_vec_of;
pub use crate::general::vec_of;
pub use crate::laws::lemma_add_associates;
pub use crate::laws::lemma_add_commutes;
pub use crate::laws::lemma_add_zero_identity;
pub use crate::laws::lemma_neither_finite_nor_nan;
pub use crate::laws::lemma_scale_associates;
pub use crate::laws::lemma_scale_by_one;
pub use crate::laws::lemma_scale_by_zero;
pub use crate::laws::lemma_sub_is_add_of_negation;
pub use crate::laws::lemma_sub_self_is_zero;
pub use crate::laws::lemma_vec1d_operand_symmetry;
pub use crate::laws::lemma_vec1d_round_trips;
pub use crate::laws::lemma_vec2d_operand_symmetry;
pub use crate::laws::lemma_vec2d_round_trips;
pub use crate::laws::lemma_vec3d_operand_symmetry;
pub use crate::laws::lemma_vec3d_round_trips;
pub use crate::laws::lemma_vecnd_operand_symmetry;
pub use crate::laws::lemma_vecnd_round_trips;
pub use crate::ops::Component;
pub use crate::ops::RefComponent;
pub use crate::ops::VectorAssignOps;
pub use crate::ops::VectorOps;
pub use crate::ops::VectorRefAssignOps;
pub use crate::ops::VectorRefOps;
pub use crate::ops::all_finite;
pub use crate::ops::all_zero;
pub use crate::ops::lemma_seq_sum_take;
pub use crate::ops::seq_add;
pub use crate::ops::seq_neg;
pub use crate::ops::seq_products;
pub use crate::ops::seq_scale;
pub use crate::ops::seq_scale_div;
pub use crate::ops::seq_scale_left;
pub use crate::ops::seq_sub;
pub use crate::ops::seq_sum;
pub use crate::ops::seq_zero;
pub use crate::ops::some_nan;

use vstd::prelude::*;

verus! {

/// The component sequence of the sum of a sequence of vectors: a
/// left-to-right fold of componentwise addition, seeded with `n` component
/// zeros.
pub open spec fn sum_cs<Cmp: Component, V: VectorOps<Cmp>>(vs: Seq<V>, n: nat) -> Seq<Cmp>
    decreases vs.len(),
{
    if vs.len() == 0 {
        seq_zero(n)
    } else {
        seq_add(sum_cs(vs.drop_last(), n), vs.last().cs())
    }
}

/// Fixed-size vector.
///
/// The model of a vector is its component sequence `cs()`, inherited from
/// [`VectorOps`].  On top of the arithmetic traits this contract adds the
/// dimension, the zero vector, the dot product and the norms.  `sp_dot`
/// names, per implementation, the exact expression the dot product
/// computes; `norm_sqr` is specified to return `sp_dot` of the vector with
/// itself, so the square of the norm and the dot product agree by contract
/// for every vector and every implementation.
pub trait Vector: Sized + Copy + VectorRefOps<<Self as Vector>::Cmp> + VectorRefAssignOps<
    <Self as Vector>::Cmp,
> {
    /// Component scalar type of the vector.
    type Cmp: Component;

    /// Dimension of the vector.
    spec fn dims() -> nat;

    /// The value the dot product with `rhs` returns.
    spec fn sp_dot(self, rhs: Self) -> Self::Cmp;

    /// The value the norm returns.
    spec fn sp_norm(self) -> Self::Cmp;

    /// A vector holds exactly as many components as its dimension says.
    proof fn lemma_dims(self)
        ensures
            self.cs().len() == Self::dims(),
    ;

    /// Dimension of the vector, as a runtime value.
    fn dim() -> (n: usize)
        ensures
            n as nat == Self::dims(),
    ;

    /// The vector whose components are all the component zero.
    fn zero() -> (r: Self)
        ensures
            r.cs() == seq_zero::<Self::Cmp>(Self::dims()),
    ;

    /// Checks if every component passes the zero test.
    fn is_zero(&self) -> (r: bool)
        ensures
            r == all_zero((*self).cs()),
    ;

    /// The square of the L2-norm: the dot product of the vector with
    /// itself.
    fn norm_sqr(self) -> (r: Self::Cmp)
        ensures
            r == self.sp_dot(self),
    ;

    /// The dot product with another vector.
    fn dot(self, rhs: Self) -> (r: Self::Cmp)
        ensures
            r == self.sp_dot(rhs),
    ;

    /// Checks if all components are finite.
    fn is_finite(self) -> (r: bool)
        ensures
            r == all_finite(self.cs()),
    ;

    /// Checks if any of the components is NaN.
    fn has_nan(self) -> (r: bool)
        ensures
            r == some_nan(self.cs()),
    ;

    /// The L2-norm.
    fn norm(self) -> (r: Self::Cmp)
        ensures
            r == self.sp_norm(),
    ;

    /// The euclid distance from the other vector: the norm of the
    /// difference, for any vector that carries the difference's
    /// components.
    fn distance(self, rhs: Self) -> (r: Self::Cmp)
        ensures
            forall|d: Self|
                (#[trigger] d.cs()) == seq_sub(self.cs(), rhs.cs()) ==> r == d.sp_norm(),
    {
        let d = self.minus(rhs);
        let r = d.norm();
        proof {
            assert forall|e: Self|
                (#[trigger] e.cs()) == seq_sub(self.cs(), rhs.cs()) implies r == e.sp_norm() by {
                e.lemma_cs_injective(d);
            }
        }
        r
    }

    /// The square of the euclid distance from the other vector: `norm_sqr`
    /// of the difference, for any vector that carries the difference's
    /// components.
    fn distance_sqr(self, rhs: Self) -> (r: Self::Cmp)
        ensures
            forall|d: Self|
                (#[trigger] d.cs()) == seq_sub(self.cs(), rhs.cs()) ==> r == d.sp_dot(d),
    {
        let d = self.minus(rhs);
        let r = d.norm_sqr();
        proof {
            assert forall|e: Self|
                (#[trigger] e.cs()) == seq_sub(self.cs(), rhs.cs()) implies r == e.sp_dot(e) by {
                e.lemma_cs_injective(d);
            }
        }
        r
    }

    /// The sum of a sequence of vectors: the zero vector plus each vector
    /// in turn, left to right.
    fn sum(vs: &Vec<Self>) -> (r: Self)
        ensures
            r.cs() == sum_cs::<Self::Cmp, Self>(vs@, Self::dims()),
    {
        let mut acc = Self::zero();
        let mut i: usize = 0;
        while i < vs.len()
            invariant
                0 <= i <= vs@.len(),
                acc.cs() == sum_cs::<Self::Cmp, Self>(vs@.take(i as int), Self::dims()),
            decreases vs@.len() - i,
        {
            let v = vs[i];
            acc = acc.plus(v);
            i = i + 1;
            proof {
                assert(vs@.take(i as int).drop_last() =~= vs@.take(i - 1));
                assert(vs@.take(i as int).last() == vs@[i - 1]);
            }
        }
        proof {
            assert(vs@.take(vs@.len() as int) =~= vs@);
        }
        acc
    }
}

} // verus!
