use vstd::prelude::*;

verus! {

broadcast use vstd::set::group_set_axioms, vstd::map::group_map_axioms;

/// The sum of `f` over the values of a finite map (zero for an infinite one).
pub closed spec fn sum_by<K, V>(m: Map<K, V>, f: spec_fn(V) -> int) -> int
    decreases m.dom().len(),
{
    if m.dom().finite() && m.dom().len() > 0 {
        let k = m.dom().choose();
        f(m[k]) + sum_by(m.remove(k), f)
    } else {
        0
    }
}

/// The empty map sums to zero.
pub proof fn lemma_sum_empty<K, V>(f: spec_fn(V) -> int)
    ensures
        sum_by(Map::<K, V>::empty(), f) == 0,
{
    assert(Map::<K, V>::empty().dom() =~= Set::empty());
}

/// Taking any one key out of a finite map takes its value out of the sum.
pub proof fn lemma_sum_remove<K, V>(m: Map<K, V>, f: spec_fn(V) -> int, k: K)
    requires
        m.dom().finite(),
        m.dom().contains(k),
    ensures
        sum_by(m, f) == f(m[k]) + sum_by(m.remove(k), f),
    decreases m.dom().len(),
{
    let c = m.dom().choose();
    assert(m.dom().contains(c));
    if c != k {
        lemma_sum_remove(m.remove(c), f, k);
        lemma_sum_remove(m.remove(k), f, c);
        assert(m.remove(c).remove(k) =~= m.remove(k).remove(c));
    }
}

/// Writing a value under a key replaces that key's share of the sum.
pub proof fn lemma_sum_insert<K, V>(m: Map<K, V>, f: spec_fn(V) -> int, k: K, v: V)
    requires
        m.dom().finite(),
    ensures
        sum_by(m.insert(k, v), f) == sum_by(m, f) - (if m.dom().contains(k) {
            f(m[k])
        } else {
            0
        }) + f(v),
{
    let n = m.insert(k, v);
    lemma_sum_remove(n, f, k);
    if m.dom().contains(k) {
        lemma_sum_remove(m, f, k);
        assert(n.remove(k) =~= m.remove(k));
    } else {
        assert(n.remove(k) =~= m);
    }
}

/// Removing a key takes its value out of the sum (nothing when it is absent).
pub proof fn lemma_sum_remove_any<K, V>(m: Map<K, V>, f: spec_fn(V) -> int, k: K)
    requires
        m.dom().finite(),
    ensures
        sum_by(m.remove(k), f) == sum_by(m, f) - (if m.dom().contains(k) {
            f(m[k])
        } else {
            0
        }),
{
    if m.dom().contains(k) {
        lemma_sum_remove(m, f, k);
    } else {
        assert(m.remove(k) =~= m);
    }
}

} // verus!
