//! The keys of the ordered collections, in the order in which they are
//! walked.

use vstd::prelude::*;
use vstd::std_specs::cmp::OrdSpec;
use vstd::std_specs::iter::IteratorSpec;
use std::collections::BTreeMap;
use std::collections::BTreeSet;

verus! {

/// Each item is smaller than those that follow it.
pub open spec fn increasing(s: Seq<u128>) -> bool {
    forall|i: int, j: int| 0 <= i < j < s.len() ==> s[i] < s[j]
}

/// The ordered collections keep 128-bit keys in the order of the numbers.
pub proof fn lemma_keys_are_ordered()
    ensures
        vstd::laws_cmp::obeys_cmp::<u128>(),
        vstd::std_specs::btree::key_obeys_cmp_spec::<u128>(),
{
    broadcast use vstd::laws_cmp::group_laws_cmp;
    broadcast use vstd::std_specs::btree::group_btree_axioms;

}

proof fn lemma_walk_is_increasing(s: Seq<&u128>)
    requires
        vstd::std_specs::btree::increasing_seq(s),
    ensures
        increasing(s.unref()),
{
    broadcast use vstd::laws_cmp::group_laws_cmp;
    broadcast use vstd::std_specs::btree::group_btree_axioms;

    vstd::std_specs::btree::axiom_increasing_seq_meaning::<&u128>(s);
    assert forall|i: int, j: int| 0 <= i < j < s.len() implies s.unref()[i] < s.unref()[j] by {
        assert(OrdSpec::cmp_spec(&s[i], &s[j]) is Less);
    }
}

/// The keys of a map, smallest first.
pub fn keys_of<V>(m: &BTreeMap<u128, V>) -> (r: Vec<u128>)
    ensures
        r@.to_set() == m@.dom(),
        increasing(r@),
{
    broadcast use vstd::std_specs::btree::group_btree_axioms;

    proof {
        lemma_keys_are_ordered();
    }
    let mut out: Vec<u128> = Vec::new();
    for k in it: m.keys()
        invariant
            out@ == it.seq().take(it.index()).unref(),
            it.seq() == m.keys().remaining(),
    {
        out.push(*k);
    }
    proof {
        assert(out@ =~= m.keys().remaining().unref());
        lemma_walk_is_increasing(m.keys().remaining());
    }
    out
}

/// The items of a set, smallest first.
pub fn items_of(s: &BTreeSet<u128>) -> (r: Vec<u128>)
    ensures
        r@.to_set() == s@,
        increasing(r@),
{
    broadcast use vstd::std_specs::btree::group_btree_axioms;

    proof {
        lemma_keys_are_ordered();
    }
    let mut out: Vec<u128> = Vec::new();
    for k in it: s.iter()
        invariant
            out@ == it.seq().take(it.index()).unref(),
            it.seq() == s.iter().remaining(),
    {
        out.push(*k);
    }
    proof {
        assert(out@ =~= s.iter().remaining().unref());
        lemma_walk_is_increasing(s.iter().remaining());
    }
    out
}

/// The items of an increasing list but one value, in the same order.
pub fn without(items: &Vec<u128>, left_out: u128) -> (r: Vec<u128>)
    requires
        increasing(items@),
    ensures
        r@.to_set() == items@.to_set().remove(left_out),
        increasing(r@),
{
    let mut out: Vec<u128> = Vec::new();
    let mut i: usize = 0;
    while i < items.len()
        invariant
            0 <= i <= items.len(),
            increasing(items@),
            increasing(out@),
            forall|j: int|
                0 <= j < out.len() ==> exists|k: int|
                    0 <= k < i && items[k] == #[trigger] out[j] && out[j] != left_out,
            forall|k: int| 0 <= k < i && #[trigger] items[k] != left_out ==> out@.contains(items[k]),
        decreases items.len() - i,
    {
        let item = items[i];
        if item != left_out {
            let ghost before = out@;
            out.push(item);
            proof {
                assert forall|a: int, b: int| 0 <= a < b < out.len() implies out[a] < out[b] by {
                    if b == out.len() - 1 {
                        let k = choose|k: int| 0 <= k < i && items[k] == before[a];
                        assert(items[k] < items[i as int]);
                    }
                }
                assert forall|k: int| 0 <= k < i + 1 && #[trigger] items[k]
                    != left_out implies out@.contains(items[k]) by {
                    if k < i {
                        let j = choose|j: int| 0 <= j < before.len() && before[j] == items[k];
                        assert(out[j] == items[k]);
                    } else {
                        assert(out[out.len() - 1] == items[k]);
                    }
                }
            }
        }
        i = i + 1;
    }
    proof {
        assert forall|x: u128| out@.to_set().contains(x) == items@.to_set().remove(
            left_out,
        ).contains(x) by {
            if out@.to_set().contains(x) {
                assert(out@.contains(x));
                let j = choose|j: int| 0 <= j < out.len() && out[j] == x;
                let k = choose|k: int| 0 <= k < i && items[k] == out[j] && out[j] != left_out;
                assert(items@.contains(x));
            }
            if items@.to_set().remove(left_out).contains(x) {
                assert(items@.contains(x));
                let k = choose|k: int| 0 <= k < items.len() && items[k] == x;
                assert(out@.contains(items[k]));
            }
        }
        assert(out@.to_set() =~= items@.to_set().remove(left_out));
    }
    out
}

} // verus!
