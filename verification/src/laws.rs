//! The algebraic laws that the vector operations obey.
//!
//! The laws about addition, subtraction and scaling are stated once, for
//! every type that implements the operator traits, over the component
//! model `cs()`.  Where a law depends on a property of the component
//! arithmetic (commutativity, associativity, an identity), that property
//! appears as a hypothesis on the components involved: the intended
//! components are floating-point numbers, which satisfy such properties
//! only on part of their range, and the hypothesis names exactly what is
//! used.  The operand-symmetry and round-trip laws are stated per
//! concrete vector type over the operator and conversion specs.

use vstd::prelude::*;

use crate::fixed::Vec1D;
use crate::fixed::Vec2D;
use crate::fixed::Vec3D;
use crate::general::VecND;
use crate::general::lemma_vec_of;
use crate::array::lemma_arr_of;
use crate::ops::Component;
use crate::ops::VectorOps;
use crate::ops::all_finite;
use crate::ops::seq_add;
use crate::ops::seq_neg;
use crate::ops::seq_scale;
use crate::ops::seq_scale_div;
use crate::ops::seq_sub;
use crate::ops::seq_zero;
use crate::ops::some_nan;
use vstd::std_specs::convert::FromSpec;
use vstd::std_specs::ops::AddSpec;
use vstd::std_specs::ops::DivSpec;
use vstd::std_specs::ops::MulSpec;
use vstd::std_specs::ops::NegSpec;
use vstd::std_specs::ops::SubSpec;

verus! {

/// Vector addition commutes wherever the paired component additions
/// commute: any result of `a + b` equals any result of `b + a`.
pub proof fn lemma_add_commutes<Cmp: Component, V: VectorOps<Cmp>>(a: V, b: V, ab: V, ba: V)
    requires
        a.cs().len() == b.cs().len(),
        forall|i: int|
            0 <= i < a.cs().len() ==> (#[trigger] a.cs()[i]).sp_add(b.cs()[i]) == b.cs()[i].sp_add(
                a.cs()[i],
            ),
        ab.cs() == seq_add(a.cs(), b.cs()),
        ba.cs() == seq_add(b.cs(), a.cs()),
    ensures
        ab == ba,
{
    assert(ab.cs() =~= ba.cs());
    ab.lemma_cs_injective(ba);
}

/// Vector addition associates wherever the component additions involved
/// associate: any result of `(a + b) + c` equals any result of
/// `a + (b + c)`.
pub proof fn lemma_add_associates<Cmp: Component, V: VectorOps<Cmp>>(
    a: V,
    b: V,
    c: V,
    ab: V,
    bc: V,
    ab_c: V,
    a_bc: V,
)
    requires
        a.cs().len() == b.cs().len(),
        b.cs().len() == c.cs().len(),
        forall|i: int|
            0 <= i < a.cs().len() ==> ((#[trigger] a.cs()[i]).sp_add(b.cs()[i])).sp_add(c.cs()[i])
                == a.cs()[i].sp_add(b.cs()[i].sp_add(c.cs()[i])),
        ab.cs() == seq_add(a.cs(), b.cs()),
        bc.cs() == seq_add(b.cs(), c.cs()),
        ab_c.cs() == seq_add(ab.cs(), c.cs()),
        a_bc.cs() == seq_add(a.cs(), bc.cs()),
    ensures
        ab_c == a_bc,
{
    assert(ab_c.cs() =~= a_bc.cs());
    ab_c.lemma_cs_injective(a_bc);
}

/// Subtracting a vector is adding its negation, wherever that holds of
/// the paired components: any result of `a - b` equals any result of
/// `a + (-b)`.
pub proof fn lemma_sub_is_add_of_negation<Cmp: Component, V: VectorOps<Cmp>>(
    a: V,
    b: V,
    d: V,
    nb: V,
    s: V,
)
    requires
        a.cs().len() == b.cs().len(),
        forall|i: int|
            0 <= i < a.cs().len() ==> (#[trigger] a.cs()[i]).sp_sub(b.cs()[i]) == a.cs()[i].sp_add(
                b.cs()[i].sp_neg(),
            ),
        d.cs() == seq_sub(a.cs(), b.cs()),
        nb.cs() == seq_neg(b.cs()),
        s.cs() == seq_add(a.cs(), nb.cs()),
    ensures
        d == s,
{
    assert(d.cs() =~= s.cs());
    d.lemma_cs_injective(s);
}

/// The zero vector is a right identity of addition, wherever the
/// component zero is one for the components of `a`: any result of
/// `a + zero` equals `a`.
pub proof fn lemma_add_zero_identity<Cmp: Component, V: VectorOps<Cmp>>(a: V, z: V, r: V)
    requires
        forall|i: int|
            0 <= i < a.cs().len() ==> (#[trigger] a.cs()[i]).sp_add(Cmp::sp_zero()) == a.cs()[i],
        z.cs() == seq_zero::<Cmp>(a.cs().len()),
        r.cs() == seq_add(a.cs(), z.cs()),
    ensures
        r == a,
{
    assert(r.cs() =~= a.cs());
    r.lemma_cs_injective(a);
}

/// A vector minus itself is the zero vector, wherever each component
/// minus itself is the component zero — which holds of every component
/// that is not NaN and not infinite: any result of `a - a` equals any
/// zero vector of the same dimension.
pub proof fn lemma_sub_self_is_zero<Cmp: Component, V: VectorOps<Cmp>>(a: V, d: V, z: V)
    requires
        forall|i: int|
            0 <= i < a.cs().len() ==> (#[trigger] a.cs()[i]).sp_sub(a.cs()[i]) == Cmp::sp_zero(),
        d.cs() == seq_sub(a.cs(), a.cs()),
        z.cs() == seq_zero::<Cmp>(a.cs().len()),
    ensures
        d == z,
{
    assert(d.cs() =~= z.cs());
    d.lemma_cs_injective(z);
}

/// Scaling by `s` and then by `t` is scaling by `s * t`, wherever that
/// holds of the components — for floating-point components the two agree
/// only up to rounding, and the hypothesis names the components where
/// they agree exactly: any result of `(a * s) * t` equals any result of
/// `a * (s * t)`.
pub proof fn lemma_scale_associates<Cmp: Component, V: VectorOps<Cmp>>(
    a: V,
    s: Cmp,
    t: Cmp,
    a_s: V,
    a_st: V,
    a_prod: V,
)
    requires
        forall|i: int|
            0 <= i < a.cs().len() ==> ((#[trigger] a.cs()[i]).sp_mul(s)).sp_mul(t) == a.cs()[i].sp_mul(
                s.sp_mul(t),
            ),
        a_s.cs() == seq_scale(a.cs(), s),
        a_st.cs() == seq_scale(a_s.cs(), t),
        a_prod.cs() == seq_scale(a.cs(), s.sp_mul(t)),
    ensures
        a_st == a_prod,
{
    assert(a_st.cs() =~= a_prod.cs());
    a_st.lemma_cs_injective(a_prod);
}

/// Scaling by a multiplicative unit changes nothing, wherever the unit
/// acts as one on the components of `a`: any result of `a * one` equals
/// `a`.
pub proof fn lemma_scale_by_one<Cmp: Component, V: VectorOps<Cmp>>(a: V, one: Cmp, r: V)
    requires
        forall|i: int| 0 <= i < a.cs().len() ==> (#[trigger] a.cs()[i]).sp_mul(one) == a.cs()[i],
        r.cs() == seq_scale(a.cs(), one),
    ensures
        r == a,
{
    assert(r.cs() =~= a.cs());
    r.lemma_cs_injective(a);
}

/// Scaling by the component zero gives the zero vector, wherever
/// multiplying by zero annihilates the components of `a` — which holds
/// of every finite component: any result of `a * zero` equals any zero
/// vector of the same dimension.
pub proof fn lemma_scale_by_zero<Cmp: Component, V: VectorOps<Cmp>>(a: V, r: V, z: V)
    requires
        forall|i: int|
            0 <= i < a.cs().len() ==> (#[trigger] a.cs()[i]).sp_mul(Cmp::sp_zero())
                == Cmp::sp_zero(),
        r.cs() == seq_scale(a.cs(), Cmp::sp_zero()),
        z.cs() == seq_zero::<Cmp>(a.cs().len()),
    ensures
        r == z,
{
    assert(r.cs() =~= z.cs());
    r.lemma_cs_injective(z);
}

/// A component sequence with an entry that is neither finite nor NaN is
/// itself neither all-finite nor NaN-carrying: the finiteness check and
/// the NaN check are not complements of each other.
pub proof fn lemma_neither_finite_nor_nan<Cmp: Component>(s: Seq<Cmp>, i: int)
    requires
        0 <= i < s.len(),
        !s[i].sp_is_finite(),
        forall|j: int| 0 <= j < s.len() ==> !(#[trigger] s[j]).sp_is_nan(),
    ensures
        !all_finite(s),
        !some_nan(s),
{
}

/// Operand symmetry for [`Vec1D`]: for every binary operator, value
/// and reference operands give the same result, in all four
/// combinations, and negation agrees between a value and a reference;
/// each binary operator also combines the component sequences exactly
/// as the corresponding `VectorOps` method does.
pub proof fn lemma_vec1d_operand_symmetry<T: Component>(a: Vec1D<T>, b: Vec1D<T>, s: T)
    ensures
        <Vec1D<T> as AddSpec<Vec1D<T>>>::add_spec(a, b) == <Vec1D<T> as AddSpec<&Vec1D<T>>>::add_spec(a, &b),
        <Vec1D<T> as AddSpec<Vec1D<T>>>::add_spec(a, b) == <&Vec1D<T> as AddSpec<Vec1D<T>>>::add_spec(&a, b),
        <Vec1D<T> as AddSpec<Vec1D<T>>>::add_spec(a, b) == <&Vec1D<T> as AddSpec<&Vec1D<T>>>::add_spec(&a, &b),
        <Vec1D<T> as SubSpec<Vec1D<T>>>::sub_spec(a, b) == <Vec1D<T> as SubSpec<&Vec1D<T>>>::sub_spec(a, &b),
        <Vec1D<T> as SubSpec<Vec1D<T>>>::sub_spec(a, b) == <&Vec1D<T> as SubSpec<Vec1D<T>>>::sub_spec(&a, b),
        <Vec1D<T> as SubSpec<Vec1D<T>>>::sub_spec(a, b) == <&Vec1D<T> as SubSpec<&Vec1D<T>>>::sub_spec(&a, &b),
        <Vec1D<T> as MulSpec<T>>::mul_spec(a, s) == <Vec1D<T> as MulSpec<&T>>::mul_spec(a, &s),
        <Vec1D<T> as MulSpec<T>>::mul_spec(a, s) == <&Vec1D<T> as MulSpec<T>>::mul_spec(&a, s),
        <Vec1D<T> as MulSpec<T>>::mul_spec(a, s) == <&Vec1D<T> as MulSpec<&T>>::mul_spec(&a, &s),
        <Vec1D<T> as DivSpec<T>>::div_spec(a, s) == <Vec1D<T> as DivSpec<&T>>::div_spec(a, &s),
        <Vec1D<T> as DivSpec<T>>::div_spec(a, s) == <&Vec1D<T> as DivSpec<T>>::div_spec(&a, s),
        <Vec1D<T> as DivSpec<T>>::div_spec(a, s) == <&Vec1D<T> as DivSpec<&T>>::div_spec(&a, &s),
        <Vec1D<T> as NegSpec>::neg_spec(a) == <&Vec1D<T> as NegSpec>::neg_spec(&a),
        (<Vec1D<T> as AddSpec<Vec1D<T>>>::add_spec(a, b)).cs() == seq_add(a.cs(), b.cs()),
        (<Vec1D<T> as SubSpec<Vec1D<T>>>::sub_spec(a, b)).cs() == seq_sub(a.cs(), b.cs()),
        (<Vec1D<T> as MulSpec<T>>::mul_spec(a, s)).cs() == seq_scale(a.cs(), s),
        (<Vec1D<T> as DivSpec<T>>::div_spec(a, s)).cs() == seq_scale_div(a.cs(), s),
        (<Vec1D<T> as NegSpec>::neg_spec(a)).cs() == seq_neg(a.cs()),
{
    assert((<Vec1D<T> as AddSpec<Vec1D<T>>>::add_spec(a, b)).cs() =~= seq_add(a.cs(), b.cs()));
    assert((<Vec1D<T> as SubSpec<Vec1D<T>>>::sub_spec(a, b)).cs() =~= seq_sub(a.cs(), b.cs()));
    assert((<Vec1D<T> as MulSpec<T>>::mul_spec(a, s)).cs() =~= seq_scale(a.cs(), s));
    assert((<Vec1D<T> as DivSpec<T>>::div_spec(a, s)).cs() =~= seq_scale_div(a.cs(), s));
    assert((<Vec1D<T> as NegSpec>::neg_spec(a)).cs() =~= seq_neg(a.cs()));
}

/// Round trips between [`Vec1D`], arrays, tuples and the general
/// vector of dimension 1 preserve every component and their order,
/// in every direction.
pub proof fn lemma_vec1d_round_trips<T: Copy>(v: Vec1D<T>, a: [T; 1], t: (T,), g: VecND<T, 1>)
    ensures
        <[T; 1] as FromSpec<Vec1D<T>>>::from_spec(<Vec1D<T> as FromSpec<[T; 1]>>::from_spec(a)) == a,
        a@ == seq![v.x] ==> <Vec1D<T> as FromSpec<[T; 1]>>::from_spec(a) == v,
        <Vec1D<T> as FromSpec<(T,)>>::from_spec(<(T,) as FromSpec<Vec1D<T>>>::from_spec(v)) == v,
        <(T,) as FromSpec<Vec1D<T>>>::from_spec(<Vec1D<T> as FromSpec<(T,)>>::from_spec(t)) == t,
        g@ == seq![v.x] ==> <Vec1D<T> as FromSpec<VecND<T, 1>>>::from_spec(g) == v,
        <VecND<T, 1> as FromSpec<Vec1D<T>>>::from_spec(<Vec1D<T> as FromSpec<VecND<T, 1>>>::from_spec(g))
            == g,
{
    assert(a@ =~= seq![a@[0]]);
    lemma_arr_of(a, seq![a@[0]]);
    g.lemma_len();
    assert(g@ =~= seq![g@[0]]);
    lemma_vec_of(g, seq![g@[0]]);
}

/// Operand symmetry for [`Vec2D`]: for every binary operator, value
/// and reference operands give the same result, in all four
/// combinations, and negation agrees between a value and a reference;
/// each binary operator also combines the component sequences exactly
/// as the corresponding `VectorOps` method does.
pub proof fn lemma_vec2d_operand_symmetry<T: Component>(a: Vec2D<T>, b: Vec2D<T>, s: T)
    ensures
        <Vec2D<T> as AddSpec<Vec2D<T>>>::add_spec(a, b) == <Vec2D<T> as AddSpec<&Vec2D<T>>>::add_spec(a, &b),
        <Vec2D<T> as AddSpec<Vec2D<T>>>::add_spec(a, b) == <&Vec2D<T> as AddSpec<Vec2D<T>>>::add_spec(&a, b),
        <Vec2D<T> as AddSpec<Vec2D<T>>>::add_spec(a, b) == <&Vec2D<T> as AddSpec<&Vec2D<T>>>::add_spec(&a, &b),
        <Vec2D<T> as SubSpec<Vec2D<T>>>::sub_spec(a, b) == <Vec2D<T> as SubSpec<&Vec2D<T>>>::sub_spec(a, &b),
        <Vec2D<T> as SubSpec<Vec2D<T>>>::sub_spec(a, b) == <&Vec2D<T> as SubSpec<Vec2D<T>>>::sub_spec(&a, b),
        <Vec2D<T> as SubSpec<Vec2D<T>>>::sub_spec(a, b) == <&Vec2D<T> as SubSpec<&Vec2D<T>>>::sub_spec(&a, &b),
        <Vec2D<T> as MulSpec<T>>::mul_spec(a, s) == <Vec2D<T> as MulSpec<&T>>::mul_spec(a, &s),
        <Vec2D<T> as MulSpec<T>>::mul_spec(a, s) == <&Vec2D<T> as MulSpec<T>>::mul_spec(&a, s),
        <Vec2D<T> as MulSpec<T>>::mul_spec(a, s) == <&Vec2D<T> as MulSpec<&T>>::mul_spec(&a, &s),
        <Vec2D<T> as DivSpec<T>>::div_spec(a, s) == <Vec2D<T> as DivSpec<&T>>::div_spec(a, &s),
        <Vec2D<T> as DivSpec<T>>::div_spec(a, s) == <&Vec2D<T> as DivSpec<T>>::div_spec(&a, s),
        <Vec2D<T> as DivSpec<T>>::div_spec(a, s) == <&Vec2D<T> as DivSpec<&T>>::div_spec(&a, &s),
        <Vec2D<T> as NegSpec>::neg_spec(a) == <&Vec2D<T> as NegSpec>::neg_spec(&a),
        (<Vec2D<T> as AddSpec<Vec2D<T>>>::add_spec(a, b)).cs() == seq_add(a.cs(), b.cs()),
        (<Vec2D<T> as SubSpec<Vec2D<T>>>::sub_spec(a, b)).cs() == seq_sub(a.cs(), b.cs()),
        (<Vec2D<T> as MulSpec<T>>::mul_spec(a, s)).cs() == seq_scale(a.cs(), s),
        (<Vec2D<T> as DivSpec<T>>::div_spec(a, s)).cs() == seq_scale_div(a.cs(), s),
        (<Vec2D<T> as NegSpec>::neg_spec(a)).cs() == seq_neg(a.cs()),
{
    assert((<Vec2D<T> as AddSpec<Vec2D<T>>>::add_spec(a, b)).cs() =~= seq_add(a.cs(), b.cs()));
    assert((<Vec2D<T> as SubSpec<Vec2D<T>>>::sub_spec(a, b)).cs() =~= seq_sub(a.cs(), b.cs()));
    assert((<Vec2D<T> as MulSpec<T>>::mul_spec(a, s)).cs() =~= seq_scale(a.cs(), s));
    assert((<Vec2D<T> as DivSpec<T>>::div_spec(a, s)).cs() =~= seq_scale_div(a.cs(), s));
    assert((<Vec2D<T> as NegSpec>::neg_spec(a)).cs() =~= seq_neg(a.cs()));
}

/// Round trips between [`Vec2D`], arrays, tuples and the general
/// vector of dimension 2 preserve every component and their order,
/// in every direction.
pub proof fn lemma_vec2d_round_trips<T: Copy>(v: Vec2D<T>, a: [T; 2], t: (T, T), g: VecND<T, 2>)
    ensures
        <[T; 2] as FromSpec<Vec2D<T>>>::from_spec(<Vec2D<T> as FromSpec<[T; 2]>>::from_spec(a)) == a,
        a@ == seq![v.x, v.y] ==> <Vec2D<T> as FromSpec<[T; 2]>>::from_spec(a) == v,
        <Vec2D<T> as FromSpec<(T, T)>>::from_spec(<(T, T) as FromSpec<Vec2D<T>>>::from_spec(v)) == v,
        <(T, T) as FromSpec<Vec2D<T>>>::from_spec(<Vec2D<T> as FromSpec<(T, T)>>::from_spec(t)) == t,
        g@ == seq![v.x, v.y] ==> <Vec2D<T> as FromSpec<VecND<T, 2>>>::from_spec(g) == v,
        <VecND<T, 2> as FromSpec<Vec2D<T>>>::from_spec(<Vec2D<T> as FromSpec<VecND<T, 2>>>::from_spec(g))
            == g,
{
    assert(a@ =~= seq![a@[0], a@[1]]);
    lemma_arr_of(a, seq![a@[0], a@[1]]);
    g.lemma_len();
    assert(g@ =~= seq![g@[0], g@[1]]);
    lemma_vec_of(g, seq![g@[0], g@[1]]);
}

/// Operand symmetry for [`Vec3D`]: for every binary operator, value
/// and reference operands give the same result, in all four
/// combinations, and negation agrees between a value and a reference;
/// each binary operator also combines the component sequences exactly
/// as the corresponding `VectorOps` method does.
pub proof fn lemma_vec3d_operand_symmetry<T: Component>(a: Vec3D<T>, b: Vec3D<T>, s: T)
    ensures
        <Vec3D<T> as AddSpec<Vec3D<T>>>::add_spec(a, b) == <Vec3D<T> as AddSpec<&Vec3D<T>>>::add_spec(a, &b),
        <Vec3D<T> as AddSpec<Vec3D<T>>>::add_spec(a, b) == <&Vec3D<T> as AddSpec<Vec3D<T>>>::add_spec(&a, b),
        <Vec3D<T> as AddSpec<Vec3D<T>>>::add_spec(a, b) == <&Vec3D<T> as AddSpec<&Vec3D<T>>>::add_spec(&a, &b),
        <Vec3D<T> as SubSpec<Vec3D<T>>>::sub_spec(a, b) == <Vec3D<T> as SubSpec<&Vec3D<T>>>::sub_spec(a, &b),
        <Vec3D<T> as SubSpec<Vec3D<T>>>::sub_spec(a, b) == <&Vec3D<T> as SubSpec<Vec3D<T>>>::sub_spec(&a, b),
        <Vec3D<T> as SubSpec<Vec3D<T>>>::sub_spec(a, b) == <&Vec3D<T> as SubSpec<&Vec3D<T>>>::sub_spec(&a, &b),
        <Vec3D<T> as MulSpec<T>>::mul_spec(a, s) == <Vec3D<T> as MulSpec<&T>>::mul_spec(a, &s),
        <Vec3D<T> as MulSpec<T>>::mul_spec(a, s) == <&Vec3D<T> as MulSpec<T>>::mul_spec(&a, s),
        <Vec3D<T> as MulSpec<T>>::mul_spec(a, s) == <&Vec3D<T> as MulSpec<&T>>::mul_spec(&a, &s),
        <Vec3D<T> as DivSpec<T>>::div_spec(a, s) == <Vec3D<T> as DivSpec<&T>>::div_spec(a, &s),
        <Vec3D<T> as DivSpec<T>>::div_spec(a, s) == <&Vec3D<T> as DivSpec<T>>::div_spec(&a, s),
        <Vec3D<T> as DivSpec<T>>::div_spec(a, s) == <&Vec3D<T> as DivSpec<&T>>::div_spec(&a, &s),
        <Vec3D<T> as NegSpec>::neg_spec(a) == <&Vec3D<T> as NegSpec>::neg_spec(&a),
        (<Vec3D<T> as AddSpec<Vec3D<T>>>::add_spec(a, b)).cs() == seq_add(a.cs(), b.cs()),
        (<Vec3D<T> as SubSpec<Vec3D<T>>>::sub_spec(a, b)).cs() == seq_sub(a.cs(), b.cs()),
        (<Vec3D<T> as MulSpec<T>>::mul_spec(a, s)).cs() == seq_scale(a.cs(), s),
        (<Vec3D<T> as DivSpec<T>>::div_spec(a, s)).cs() == seq_scale_div(a.cs(), s),
        (<Vec3D<T> as NegSpec>::neg_spec(a)).cs() == seq_neg(a.cs()),
{
    assert((<Vec3D<T> as AddSpec<Vec3D<T>>>::add_spec(a, b)).cs() =~= seq_add(a.cs(), b.cs()));
    assert((<Vec3D<T> as SubSpec<Vec3D<T>>>::sub_spec(a, b)).cs() =~= seq_sub(a.cs(), b.cs()));
    assert((<Vec3D<T> as MulSpec<T>>::mul_spec(a, s)).cs() =~= seq_scale(a.cs(), s));
    assert((<Vec3D<T> as DivSpec<T>>::div_spec(a, s)).cs() =~= seq_scale_div(a.cs(), s));
    assert((<Vec3D<T> as NegSpec>::neg_spec(a)).cs() =~= seq_neg(a.cs()));
}

/// Round trips between [`Vec3D`], arrays, tuples and the general
/// vector of dimension 3 preserve every component and their order,
/// in every direction.
pub proof fn lemma_vec3d_round_trips<T: Copy>(v: Vec3D<T>, a: [T; 3], t: (T, T, T), g: VecND<T, 3>)
    ensures
        <[T; 3] as FromSpec<Vec3D<T>>>::from_spec(<Vec3D<T> as FromSpec<[T; 3]>>::from_spec(a)) == a,
        a@ == seq![v.x, v.y, v.z] ==> <Vec3D<T> as FromSpec<[T; 3]>>::from_spec(a) == v,
        <Vec3D<T> as FromSpec<(T, T, T)>>::from_spec(<(T, T, T) as FromSpec<Vec3D<T>>>::from_spec(v)) == v,
        <(T, T, T) as FromSpec<Vec3D<T>>>::from_spec(<Vec3D<T> as FromSpec<(T, T, T)>>::from_spec(t)) == t,
        g@ == seq![v.x, v.y, v.z] ==> <Vec3D<T> as FromSpec<VecND<T, 3>>>::from_spec(g) == v,
        <VecND<T, 3> as FromSpec<Vec3D<T>>>::from_spec(<Vec3D<T> as FromSpec<VecND<T, 3>>>::from_spec(g))
            == g,
{
    assert(a@ =~= seq![a@[0], a@[1], a@[2]]);
    lemma_arr_of(a, seq![a@[0], a@[1], a@[2]]);
    g.lemma_len();
    assert(g@ =~= seq![g@[0], g@[1], g@[2]]);
    lemma_vec_of(g, seq![g@[0], g@[1], g@[2]]);
}

/// Operand symmetry for [`VecND`]: for every binary operator, value
/// and reference operands give the same result, in all four
/// combinations, and negation agrees between a value and a reference.
pub proof fn lemma_vecnd_operand_symmetry<T: Component, const N: usize>(
    a: VecND<T, N>,
    b: VecND<T, N>,
    s: T,
)
    ensures
        <VecND<T, N> as AddSpec<VecND<T, N>>>::add_spec(a, b) == <VecND<T, N> as AddSpec<&VecND<T, N>>>::add_spec(a, &b),
        <VecND<T, N> as AddSpec<VecND<T, N>>>::add_spec(a, b) == <&VecND<T, N> as AddSpec<VecND<T, N>>>::add_spec(&a, b),
        <VecND<T, N> as AddSpec<VecND<T, N>>>::add_spec(a, b) == <&VecND<T, N> as AddSpec<&VecND<T, N>>>::add_spec(&a, &b),
        <VecND<T, N> as SubSpec<VecND<T, N>>>::sub_spec(a, b) == <VecND<T, N> as SubSpec<&VecND<T, N>>>::sub_spec(a, &b),
        <VecND<T, N> as SubSpec<VecND<T, N>>>::sub_spec(a, b) == <&VecND<T, N> as SubSpec<VecND<T, N>>>::sub_spec(&a, b),
        <VecND<T, N> as SubSpec<VecND<T, N>>>::sub_spec(a, b) == <&VecND<T, N> as SubSpec<&VecND<T, N>>>::sub_spec(&a, &b),
        <VecND<T, N> as MulSpec<T>>::mul_spec(a, s) == <VecND<T, N> as MulSpec<&T>>::mul_spec(a, &s),
        <VecND<T, N> as MulSpec<T>>::mul_spec(a, s) == <&VecND<T, N> as MulSpec<T>>::mul_spec(&a, s),
        <VecND<T, N> as MulSpec<T>>::mul_spec(a, s) == <&VecND<T, N> as MulSpec<&T>>::mul_spec(&a, &s),
        <VecND<T, N> as DivSpec<T>>::div_spec(a, s) == <VecND<T, N> as DivSpec<&T>>::div_spec(a, &s),
        <VecND<T, N> as DivSpec<T>>::div_spec(a, s) == <&VecND<T, N> as DivSpec<T>>::div_spec(&a, s),
        <VecND<T, N> as DivSpec<T>>::div_spec(a, s) == <&VecND<T, N> as DivSpec<&T>>::div_spec(&a, &s),
        <VecND<T, N> as NegSpec>::neg_spec(a) == <&VecND<T, N> as NegSpec>::neg_spec(&a),
{
}

/// Round trips between [`VecND`] and arrays preserve every component
/// and their order, in both directions.
pub proof fn lemma_vecnd_round_trips<T, const N: usize>(v: VecND<T, N>, a: [T; N])
    ensures
        a@ == v@ ==> <[T; N] as FromSpec<VecND<T, N>>>::from_spec(v) == a,
        a@ == v@ ==> <VecND<T, N> as FromSpec<[T; N]>>::from_spec(a) == v,
{
    if a@ == v@ {
        lemma_arr_of(a, v@);
        lemma_vec_of(v, a@);
    }
}

} // verus!
