//! Helpers for fixed-size arrays and the pairwise-transform utility.

use vstd::prelude::*;

verus! {

/// The array whose component sequence is `s`, for a sequence of the right
/// length.
///
/// The value is characterised only where a witness exists;
/// [`lemma_arr_of`] turns any array with view `s` into that
/// characterisation.
pub open spec fn arr_of<T, const N: usize>(s: Seq<T>) -> [T; N] {
    choose|a: [T; N]| a@ == s
}

/// Any array whose view is `s` is the array that [`arr_of`] names.
pub proof fn lemma_arr_of<T, const N: usize>(a: [T; N], s: Seq<T>)
    requires
        a@ == s,
    ensures
        arr_of::<T, N>(s) == a,
{
    assert(exists|b: [T; N]| b@ == s) by {
        assert(a@ == s);
    }
    let c = choose|b: [T; N]| b@ == s;
    assert(c =~= a);
}

/// Combines two same-length vectors of values element-wise with `map`,
/// producing the vector of results.
///
/// The inputs are consumed, so the element types need not be copyable, and
/// no result element requires a default value.  Two empty inputs yield an
/// empty output, and the contract then asks nothing of `map`, which is
/// never invoked.
pub fn arr_zip_map<T, S, O, F: Fn(T, S) -> O>(a: Vec<T>, b: Vec<S>, map: F) -> (out: Vec<O>)
    requires
        a@.len() == b@.len(),
        forall|i: int| 0 <= i < a@.len() ==> call_requires(map, (#[trigger] a@[i], b@[i])),
    ensures
        out@.len() == a@.len(),
        forall|i: int| 0 <= i < out@.len() ==> call_ensures(map, (a@[i], b@[i]), #[trigger] out@[i]),
{
    let mut a = a;
    let mut b = b;
    let ghost ga = a@;
    let ghost gb = b@;
    let n = a.len();
    let mut out: Vec<O> = Vec::new();
    let mut k: usize = 0;
    while a.len() > 0
        invariant
            n == ga.len(),
            gb.len() == ga.len(),
            a@.len() == b@.len(),
            k + a@.len() == n,
            a@ == ga.subrange(k as int, ga.len() as int),
            b@ == gb.subrange(k as int, gb.len() as int),
            out@.len() == k,
            forall|i: int| 0 <= i < ga.len() ==> call_requires(map, (#[trigger] ga[i], gb[i])),
            forall|i: int| 0 <= i < k ==> call_ensures(map, (ga[i], gb[i]), #[trigger] out@[i]),
        decreases a@.len(),
    {
        let x = a.remove(0);
        let y = b.remove(0);
        proof {
            assert(x == ga[k as int]);
            assert(y == gb[k as int]);
        }
        let o = map(x, y);
        out.push(o);
        k = k + 1;
        proof {
            assert(a@ =~= ga.subrange(k as int, ga.len() as int));
            assert(b@ =~= gb.subrange(k as int, gb.len() as int));
        }
    }
    out
}

} // verus!
