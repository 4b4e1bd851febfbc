//! Listing the keys of a store.

use std::collections::BTreeMap;
use vstd::prelude::*;
use vstd::std_specs::cmp::OrdSpec;

verus! {

/// Each key is smaller than the keys after it.
pub open spec fn ascending(keys: Seq<u64>) -> bool {
    forall|i: int, j: int| 0 <= i < j < keys.len() ==> keys[i] < keys[j]
}

/// `keys` names every key of a store once, the smallest first.
pub open spec fn lists(keys: Seq<u64>, dom: Set<u64>) -> bool {
    ascending(keys) && keys.to_set() == dom
}

/// `a` is ordered before `b`.
pub open spec fn comes_before<K: Ord>(a: K, b: K) -> bool {
    a.cmp_spec(&b) is Less
}

/// Keys that a map hands out in its order are ascending numbers.
pub proof fn lemma_increasing_keys(keys: Seq<&u64>)
    requires
        vstd::std_specs::btree::increasing_seq(keys),
    ensures
        forall|i: int, j: int| 0 <= i < j < keys.len() ==> *keys[i] < *keys[j],
{
    broadcast use vstd::laws_cmp::group_laws_cmp;

    assert(vstd::laws_cmp::obeys_cmp::<u64>());
    assert(vstd::laws_cmp::obeys_cmp::<&u64>());
    vstd::std_specs::btree::axiom_increasing_seq_meaning::<&u64>(keys);
    assert forall|i: int, j: int| 0 <= i < j < keys.len() implies *keys[i] < *keys[j] by {
        assert(comes_before(keys[i], keys[j]));
    }
}

/// The keys of `store`, each once, the smallest first.
pub fn keys_of<V>(store: &BTreeMap<u64, V>) -> (keys: Vec<u64>)
    ensures
        lists(keys@, store@.dom()),
{
    let mut keys: Vec<u64> = Vec::new();
    for key in it: store.keys()
        invariant
            keys@.len() == it.index(),
            forall|j: int| 0 <= j < keys@.len() ==> keys@[j] == *it.seq()[j],
            it.seq().unref().to_set() == store@.dom(),
            vstd::std_specs::btree::increasing_seq(it.seq()),
            it.index() == it.seq().len() ==> keys@ =~= it.seq().unref() && ascending(keys@),
    {
        keys.push(*key);
        proof {
            lemma_increasing_keys(it.seq());
        }
    }
    assert(keys@.to_set() =~= store@.dom());
    keys
}

} // verus!
