//! Moving maps and sets to and from plain vectors, so that a state can be
//! stored and restored.

use std::collections::HashMap;
use std::collections::HashSet;
use std::hash::Hash;
use vstd::prelude::*;
use vstd::std_specs::iter::IteratorSpec;

verus! {

broadcast use vstd::std_specs::hash::group_hash_axioms;

/// The map that a sequence of pairs describes: a later pair wins over an earlier one.
pub open spec fn pairs_to_map<K, V>(ps: Seq<(K, V)>) -> Map<K, V>
    decreases ps.len(),
{
    if ps.len() == 0 {
        Map::empty()
    } else {
        pairs_to_map(ps.drop_last()).insert(ps.last().0, ps.last().1)
    }
}

/// Every pair of `ps` is an entry of `m`.
pub open spec fn pairs_agree<K, V>(ps: Seq<(K, V)>, m: Map<K, V>) -> bool {
    forall|i: int| 0 <= i < ps.len() ==> m.contains_key(#[trigger] ps[i].0) && m[ps[i].0] == ps[i].1
}

/// Every key of `m` occurs in `ps`.
pub open spec fn pairs_cover<K, V>(ps: Seq<(K, V)>, m: Map<K, V>) -> bool {
    forall|k: K| #[trigger] m.contains_key(k) ==> exists|i: int| 0 <= i < ps.len() && ps[i].0 == k
}

proof fn lemma_pairs_to_map_entries<K, V>(ps: Seq<(K, V)>, m: Map<K, V>)
    requires
        pairs_agree(ps, m),
    ensures
        forall|k: K| #[trigger]
            pairs_to_map(ps).contains_key(k) <==> exists|i: int| 0 <= i < ps.len() && ps[i].0 == k,
        forall|k: K| #[trigger] pairs_to_map(ps).contains_key(k) ==> pairs_to_map(ps)[k] == m[k],
    decreases ps.len(),
{
    if ps.len() > 0 {
        let init = ps.drop_last();
        assert forall|i: int| 0 <= i < init.len() implies m.contains_key(#[trigger] init[i].0)
            && m[init[i].0] == init[i].1 by {
            assert(init[i] == ps[i]);
        }
        lemma_pairs_to_map_entries(init, m);
        assert forall|k: K| #[trigger]
            pairs_to_map(ps).contains_key(k) <==> exists|i: int| 0 <= i < ps.len() && ps[i].0 == k by {
            if pairs_to_map(ps).contains_key(k) {
                if k == ps.last().0 {
                    assert(ps[ps.len() - 1].0 == k);
                } else {
                    assert(pairs_to_map(ps) == pairs_to_map(init).insert(ps.last().0, ps.last().1));
                    assert(pairs_to_map(init).contains_key(k));
                    let j = choose|j: int| 0 <= j < init.len() && init[j].0 == k;
                    assert(init[j] == ps[j]);
                    assert(ps[j].0 == k);
                }
            }
            if exists|i: int| 0 <= i < ps.len() && ps[i].0 == k {
                let j = choose|j: int| 0 <= j < ps.len() && ps[j].0 == k;
                assert(pairs_to_map(ps) == pairs_to_map(init).insert(ps.last().0, ps.last().1));
                if j < ps.len() - 1 {
                    assert(init[j] == ps[j]);
                    assert(init[j].0 == k);
                    assert(pairs_to_map(init).contains_key(k));
                }
            }
        }
        assert(m.contains_key(ps[ps.len() - 1].0));
        assert forall|k: K| #[trigger] pairs_to_map(ps).contains_key(k) implies pairs_to_map(ps)[k]
            == m[k] by {
            assert(pairs_to_map(ps) == pairs_to_map(init).insert(ps.last().0, ps.last().1));
            if k != ps.last().0 {
                assert(pairs_to_map(init).contains_key(k));
            }
        }
    }
}

/// Pairs that agree with a map and cover it describe that map.
pub proof fn lemma_pairs_to_map_exact<K, V>(ps: Seq<(K, V)>, m: Map<K, V>)
    requires
        pairs_agree(ps, m),
        pairs_cover(ps, m),
    ensures
        pairs_to_map(ps) == m,
{
    lemma_pairs_to_map_entries(ps, m);
    assert forall|k: K| #[trigger] pairs_to_map(ps).contains_key(k) <==> m.contains_key(k) by {
        if pairs_to_map(ps).contains_key(k) {
            let j = choose|j: int| 0 <= j < ps.len() && ps[j].0 == k;
            assert(m.contains_key(ps[j].0));
        }
    }
    assert(pairs_to_map(ps) =~= m);
}

/// The entries of a map, in some order, each key once.
pub fn export_map<K: Copy + Eq + Hash, V: Copy>(m: &HashMap<K, V>) -> (r: Vec<(K, V)>)
    requires
        vstd::std_specs::hash::obeys_key_model::<K>(),
    ensures
        pairs_to_map(r@) == m@,
{
    let mut out: Vec<(K, V)> = Vec::new();
    for (k, v) in it: m.iter()
        invariant
            out@.len() == it.index(),
            forall|i: int|
                0 <= i < it.index() ==> out@[i].0 == *it.seq()[i].0 && out@[i].1 == *it.seq()[i].1,
    {
        out.push((*k, *v));
    }
    proof {
        assert forall|k: K| #[trigger] m@.contains_key(k) implies exists|i: int|
            0 <= i < out@.len() && out@[i].0 == k by {
            let seq = vstd::std_specs::hash::spec_hash_map_iter(m).remaining();
            let j = choose|j: int| 0 <= j < seq.len() && seq[j] == (&k, &m@[k]);
            assert(out@[j].0 == k);
        }
        assert forall|i: int| 0 <= i < out@.len() implies m@.contains_key(#[trigger] out@[i].0)
            && m@[out@[i].0] == out@[i].1 by {
            let seq = vstd::std_specs::hash::spec_hash_map_iter(m).remaining();
            assert(m@.contains_key(*seq[i].0));
        }
        lemma_pairs_to_map_exact(out@, m@);
    }
    out
}

/// A map holding the given pairs, later ones winning.
pub fn import_map<K: Copy + Eq + Hash, V: Copy>(ps: &Vec<(K, V)>) -> (r: HashMap<K, V>)
    requires
        vstd::std_specs::hash::obeys_key_model::<K>(),
    ensures
        r@ == pairs_to_map(ps@),
{
    let mut m: HashMap<K, V> = HashMap::new();
    let mut i: usize = 0;
    while i < ps.len()
        invariant
            i <= ps.len(),
            vstd::std_specs::hash::obeys_key_model::<K>(),
            m@ == pairs_to_map(ps@.subrange(0, i as int)),
        decreases ps.len() - i,
    {
        let (k, v) = ps[i];
        m.insert(k, v);
        proof {
            assert(ps@.subrange(0, i + 1).drop_last() =~= ps@.subrange(0, i as int));
        }
        i = i + 1;
    }
    proof {
        assert(ps@.subrange(0, ps@.len() as int) =~= ps@);
    }
    m
}

/// The elements of a set, in some order.
pub fn export_set<K: Copy + Eq + Hash>(s: &HashSet<K>) -> (r: Vec<K>)
    requires
        vstd::std_specs::hash::obeys_key_model::<K>(),
    ensures
        r@.to_set() == s@,
{
    let mut out: Vec<K> = Vec::new();
    for k in it: s.iter()
        invariant
            out@.len() == it.index(),
            forall|i: int| 0 <= i < it.index() ==> out@[i] == *it.seq()[i],
    {
        out.push(*k);
    }
    proof {
        let seq = vstd::std_specs::hash::spec_hash_keys_iter(s).remaining();
        assert(out@ =~= seq.unref());
    }
    out
}

/// A set holding the given elements.
pub fn import_set<K: Copy + Eq + Hash>(v: &Vec<K>) -> (r: HashSet<K>)
    requires
        vstd::std_specs::hash::obeys_key_model::<K>(),
    ensures
        r@ == v@.to_set(),
{
    let mut s: HashSet<K> = HashSet::new();
    let mut i: usize = 0;
    while i < v.len()
        invariant
            i <= v.len(),
            vstd::std_specs::hash::obeys_key_model::<K>(),
            s@ == v@.subrange(0, i as int).to_set(),
        decreases v.len() - i,
    {
        s.insert(v[i]);
        proof {
            assert(v@.subrange(0, i + 1) =~= v@.subrange(0, i as int).push(v@[i as int]));
            v@.subrange(0, i as int).lemma_push_to_set_commute(v@[i as int]);
        }
        i = i + 1;
    }
    proof {
        assert(v@.subrange(0, v@.len() as int) =~= v@);
    }
    s
}

} // verus!
