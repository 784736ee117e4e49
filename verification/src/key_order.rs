//! Order facts about the keys that a `BTreeMap` walk hands out.

use vstd::prelude::*;
use vstd::std_specs::btree::{increasing_seq, key_obeys_cmp_spec};
use vstd::std_specs::cmp::OrdSpec;

verus! {

/// The keys of a map keyed by `usize` are ordered by `<`.
pub proof fn lemma_usize_keys_ordered()
    ensures
        key_obeys_cmp_spec::<usize>(),
{
    broadcast use vstd::std_specs::btree::group_btree_axioms;
    broadcast use vstd::laws_cmp::group_laws_cmp;
}

/// A sequence of `usize` that a `BTreeMap` walk calls increasing rises
/// strictly.
pub proof fn lemma_increasing_usize(s: Seq<usize>)
    requires
        increasing_seq(s),
    ensures
        forall|i: int, j: int| 0 <= i < j < s.len() ==> s[i] < s[j],
{
    broadcast use vstd::std_specs::btree::group_btree_axioms;
    assert forall|i: int, j: int| 0 <= i < j < s.len() implies s[i] < s[j] by {
        assert(s[i].cmp_spec(&s[j]) is Less);
    }
}

} // verus!
