//! Plain data that the code generator's machines share: code offsets,
//! register numbers, the table of trapping instructions and the map from
//! source locations to native code.

use vstd::prelude::*;
use std::collections::BTreeMap;
use wasmer_types::TrapCode;
use vstd::std_specs::btree::{increasing_seq, spec_btree_map_iter};
use vstd::std_specs::iter::IteratorSpec;
use crate::key_order::{lemma_increasing_usize, lemma_usize_keys_ordered};

verus! {

/// A byte offset into the code being assembled.
#[derive(Copy, Clone, Debug, PartialEq, Eq, Structural)]
pub struct Offset(pub usize);

/// The number of a register in the machine-independent register state.
#[derive(Copy, Clone, Debug, PartialEq, Eq, Structural)]
pub struct RegisterIndex(pub usize);

/// The trapping instructions of a function, by their offset in its code.
pub struct TrapTable {
    pub offset_to_code: BTreeMap<usize, TrapCode>,
}

impl TrapTable {
    /// A table without entries.
    pub fn new() -> (t: Self)
        ensures
            t.offset_to_code@ == Map::<usize, TrapCode>::empty(),
    {
        TrapTable { offset_to_code: BTreeMap::new() }
    }
}

/// A trapping instruction: its offset in the function's code, cut to 32
/// bits, and the trap that it raises.
#[derive(Copy, Clone, Debug, PartialEq, Eq)]
pub struct TrapInformation {
    pub code_offset: u32,
    pub trap_code: TrapCode,
}

/// The native code generated for one source location.
#[derive(Copy, Clone, Debug, PartialEq, Eq, Structural)]
pub struct InstructionAddressMap {
    pub srcloc: u32,
    pub code_offset: usize,
    pub code_len: usize,
}

/// `infos` lists the entries of `table` in increasing order of offset, each
/// offset cut to 32 bits.
pub open spec fn lists_traps_in_order(infos: Seq<TrapInformation>, table: Map<usize, TrapCode>) -> bool {
    exists|offsets: Seq<usize>|
        {
            &&& offsets.len() == infos.len()
            &&& forall|i: int, j: int| 0 <= i < j < offsets.len() ==> offsets[i] < offsets[j]
            &&& forall|k: usize| table.contains_key(k) <==> offsets.contains(k)
            &&& forall|i: int|
                0 <= i < offsets.len() ==> #[trigger] infos[i] == (TrapInformation {
                    code_offset: offsets[i] as u32,
                    trap_code: table[offsets[i]],
                })
        }
}

/// The entries of a trap table, in increasing order of offset, as trap
/// information.
pub fn collect_trap_information(table: &TrapTable) -> (r: Vec<TrapInformation>)
    ensures
        r.len() == table.offset_to_code@.len(),
        lists_traps_in_order(r@, table.offset_to_code@),
{
    broadcast use vstd::std_specs::btree::group_btree_axioms;
    proof {
        lemma_usize_keys_ordered();
    }
    let ghost entries = spec_btree_map_iter(&table.offset_to_code).remaining();
    let mut r: Vec<TrapInformation> = Vec::new();
    for entry in it: table.offset_to_code.iter()
        invariant
            it.seq() == entries,
            r.len() == it.index(),
            forall|i: int|
                0 <= i < it.index() ==> #[trigger] r@[i] == (TrapInformation {
                    code_offset: *it.seq()[i].0 as u32,
                    trap_code: *it.seq()[i].1,
                }),
    {
        let (offset, code) = entry;
        r.push(TrapInformation { code_offset: *offset as u32, trap_code: *code });
    }
    proof {
        let m = table.offset_to_code@;
        let offsets = entries.map_values(|kv: (&usize, &TrapCode)| *kv.0);
        assert(increasing_seq(offsets));
        lemma_increasing_usize(offsets);
        assert forall|k: usize| m.contains_key(k) implies offsets.contains(k) by {
            assert(entries.contains((&k, &m[k])));
            let j = choose|j: int| 0 <= j < entries.len() && entries[j] == (&k, &m[k]);
            assert(offsets[j] == k);
        }
        assert forall|k: usize| offsets.contains(k) implies m.contains_key(k) by {
            let j = choose|j: int| 0 <= j < offsets.len() && offsets[j] == k;
            assert(m.contains_key(*entries[j].0));
        }
        assert forall|i: int| 0 <= i < offsets.len() implies #[trigger] r@[i] == (TrapInformation {
            code_offset: offsets[i] as u32,
            trap_code: m[offsets[i]],
        }) by {
            assert(m.contains_key(*entries[i].0));
            assert(m[*entries[i].0] == *entries[i].1);
        }
    }
    r
}

} // verus!
