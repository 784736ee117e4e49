//! Properties that hold across the operations of the RISC-V machine.

use vstd::prelude::*;
use wasmer_types::TrapCode;
use crate::code_buffer::words_le;
use crate::location::Location;
use crate::machine::{lists_traps_in_order, TrapInformation};
use crate::machine_riscv::{
    align16, call_param_location, call_param_walk_offset, callee_saved_pool, first_unused, lemma_first_unused,
    local_location, simple_param_location, temp_pool,
};
use crate::machine_riscv::call_param_next_offset;
use crate::riscv_decl::{gpr_index, GPR};

verus! {

/// Freeing a register that was just reserved, having been free, gives back
/// the registers in use before.
pub proof fn law_release_undoes_reserve(used: Set<GPR>, r: GPR)
    requires
        !used.contains(r),
    ensures
        used.insert(r).remove(r) == used,
        used.insert(r).contains(r),
{
    assert(used.insert(r).remove(r) =~= used);
}

/// A picked register is one of its pool and is not in use; where nothing is
/// picked, every register of the pool is in use.
pub proof fn law_pick_hands_out_free_registers(used: Set<GPR>)
    ensures
        first_unused(callee_saved_pool(), used) matches Some(r) ==> callee_saved_pool().contains(r)
            && !used.contains(r),
        first_unused(callee_saved_pool(), used) is None ==> forall|i: int|
            0 <= i < callee_saved_pool().len() ==> used.contains(#[trigger] callee_saved_pool()[i]),
        first_unused(temp_pool(), used) matches Some(r) ==> temp_pool().contains(r) && !used.contains(r),
        first_unused(temp_pool(), used) is None ==> forall|i: int|
            0 <= i < temp_pool().len() ==> used.contains(#[trigger] temp_pool()[i]),
{
    lemma_first_unused(callee_saved_pool(), used);
    lemma_first_unused(temp_pool(), used);
}

/// Once the picked register is reserved, the next pick from the same pool
/// hands out another register or none.
pub proof fn law_pick_after_reserve_moves_on(pool: Seq<GPR>, used: Set<GPR>, r: GPR)
    requires
        first_unused(pool, used) == Some(r),
    ensures
        first_unused(pool, used.insert(r)) != Some(r),
{
    lemma_first_unused(pool, used.insert(r));
}

/// The two pools share no register, and neither holds the frame pointer
/// `x8` nor the VM-context register `x27`.
pub proof fn law_pools_are_separate()
    ensures
        forall|i: int, j: int|
            0 <= i < callee_saved_pool().len() && 0 <= j < temp_pool().len() ==> callee_saved_pool()[i]
                != temp_pool()[j],
        !callee_saved_pool().contains(GPR::X8),
        !callee_saved_pool().contains(GPR::X27),
        !temp_pool().contains(GPR::X8),
        !temp_pool().contains(GPR::X27),
{
    assert(!callee_saved_pool().contains(GPR::X8)) by {
        if callee_saved_pool().contains(GPR::X8) {
            let i = choose|i: int| 0 <= i < 9 && callee_saved_pool()[i] == GPR::X8;
        }
    }
    assert(!callee_saved_pool().contains(GPR::X27)) by {
        if callee_saved_pool().contains(GPR::X27) {
            let i = choose|i: int| 0 <= i < 9 && callee_saved_pool()[i] == GPR::X27;
        }
    }
    assert(!temp_pool().contains(GPR::X8)) by {
        if temp_pool().contains(GPR::X8) {
            let i = choose|i: int| 0 <= i < 6 && temp_pool()[i] == GPR::X8;
        }
    }
    assert(!temp_pool().contains(GPR::X27)) by {
        if temp_pool().contains(GPR::X27) {
            let i = choose|i: int| 0 <= i < 6 && temp_pool()[i] == GPR::X27;
        }
    }
}

/// The locals that live in registers live in the registers of the
/// callee-saved pool: local `i` in the pool's register `8 - i`.
pub proof fn law_register_locals_use_the_callee_saved_pool(idx: int, css: int)
    requires
        0 <= idx <= 8,
    ensures
        local_location(idx, css) == Location::GPR(callee_saved_pool()[8 - idx]),
{
}

/// Distinct locals get distinct locations, as long as the frame offsets fit
/// in 31 bits.
pub proof fn law_locals_do_not_overlap(i: int, j: int, css: int)
    requires
        0 <= i,
        0 <= j,
        i != j,
        0 <= css,
        i > 8 ==> (i - 8) * 8 + css <= i32::MAX,
        j > 8 ==> (j - 8) * 8 + css <= i32::MAX,
    ensures
        local_location(i, css) != local_location(j, css),
{
}

/// Walking the arguments of a call in order, from a stack offset of 0,
/// places each where the callee looks for it: argument `idx` past the sixth
/// is reached with a stack offset of `(idx - 6) * 8`, and there the two
/// placements agree.
pub proof fn law_call_and_callee_agree(idx: int, stack_offset: usize)
    requires
        0 <= idx,
        idx >= 6 ==> stack_offset == (idx - 6) * 8,
        idx >= 6 ==> (idx - 6) * 8 + 32 <= i32::MAX,
    ensures
        call_param_location(idx, stack_offset) == simple_param_location(idx),
{
}

/// Placing the arguments of a call in order, from a stack offset of 0, puts
/// each where the callee looks for it, and leaves a stack offset of 8 bytes
/// for each argument past the sixth, as long as the stack slots fit in
/// `i32`.
pub proof fn law_call_walk_matches_callee(n: nat)
    requires
        32 + 8 * n <= i32::MAX,
    ensures
        forall|i: nat|
            i < n ==> call_param_location(i as int, call_param_walk_offset(i) as usize)
                == simple_param_location(i as int),
        call_param_walk_offset(n) == if n > 6 { 8 * (n - 6) } else { 0 },
    decreases n,
{
    if n > 0 {
        law_call_walk_matches_callee((n - 1) as nat);
        let k = (n - 1) as nat;
        assert(call_param_walk_offset(k) == if k > 6 { 8 * (k - 6) } else { 0 });
        assert(call_param_location(k as int, call_param_walk_offset(k) as usize)
            == simple_param_location(k as int)) by {
            if k >= 6 {
                law_call_and_callee_agree(k as int, call_param_walk_offset(k) as usize);
            }
        }
        assert forall|i: nat|
            i < n implies call_param_location(i as int, call_param_walk_offset(i) as usize)
                == simple_param_location(i as int) by {
            if i < k {
            }
        }
    }
}

/// Register `xn` has number `n`, for every integer register.
pub proof fn law_register_numbers()
    ensures
        gpr_index(GPR::X0) == 0,
        gpr_index(GPR::X1) == 1,
        gpr_index(GPR::X2) == 2,
        gpr_index(GPR::X3) == 3,
        gpr_index(GPR::X4) == 4,
        gpr_index(GPR::X5) == 5,
        gpr_index(GPR::X6) == 6,
        gpr_index(GPR::X7) == 7,
        gpr_index(GPR::X8) == 8,
        gpr_index(GPR::X9) == 9,
        gpr_index(GPR::X10) == 10,
        gpr_index(GPR::X11) == 11,
        gpr_index(GPR::X12) == 12,
        gpr_index(GPR::X13) == 13,
        gpr_index(GPR::X14) == 14,
        gpr_index(GPR::X15) == 15,
        gpr_index(GPR::X16) == 16,
        gpr_index(GPR::X17) == 17,
        gpr_index(GPR::X18) == 18,
        gpr_index(GPR::X19) == 19,
        gpr_index(GPR::X20) == 20,
        gpr_index(GPR::X21) == 21,
        gpr_index(GPR::X22) == 22,
        gpr_index(GPR::X23) == 23,
        gpr_index(GPR::X24) == 24,
        gpr_index(GPR::X25) == 25,
        gpr_index(GPR::X26) == 26,
        gpr_index(GPR::X27) == 27,
        gpr_index(GPR::X28) == 28,
        gpr_index(GPR::X29) == 29,
        gpr_index(GPR::X30) == 30,
        gpr_index(GPR::X31) == 31,
{
}

/// The frame offset of a local in the frame, as a whole number, where it
/// fits in 31 bits.
pub open spec fn frame_offset(loc: Location) -> int {
    match loc {
        Location::Memory(_, off) => off as int,
        _ => 0,
    }
}

/// A local in the frame is addressed from the frame pointer `x8`, and local
/// 9, the first one there, sits 8 bytes below the whole callee-saved area.
pub proof fn law_first_frame_local_is_below_the_saved_area(css: int)
    requires
        0 <= css,
        8 + css <= i32::MAX,
    ensures
        local_location(9, css) == Location::Memory(GPR::X8, (-(8 + css)) as i32),
        local_location(9, css) is Memory,
        frame_offset(local_location(9, css)) == -(8 + css),
{
}

/// Each further local in the frame sits 8 bytes below the one before it.
pub proof fn law_frame_locals_are_8_bytes_apart(idx: int, css: int)
    requires
        idx > 8,
        0 <= css,
        (idx + 1 - 8) * 8 + css <= i32::MAX,
    ensures
        local_location(idx, css) matches Location::Memory(base, _) && base == GPR::X8,
        local_location(idx + 1, css) matches Location::Memory(base, _) && base == GPR::X8,
        frame_offset(local_location(idx + 1, css)) == frame_offset(local_location(idx, css)) - 8,
{
}

/// One more byte of callee-saved area moves every local in the frame one
/// byte lower.
pub proof fn law_frame_locals_follow_the_saved_area(idx: int, css: int)
    requires
        idx > 8,
        0 <= css,
        (idx - 8) * 8 + css + 1 <= i32::MAX,
    ensures
        frame_offset(local_location(idx, css + 1)) == frame_offset(local_location(idx, css)) - 1,
{
}

/// The frame offset of local `idx` is minus the distance from the frame
/// pointer: 8 bytes for each local in the frame up to it, plus the whole
/// callee-saved area.
pub proof fn law_frame_local_distance(idx: int, css: int)
    requires
        idx > 8,
        0 <= css,
        (idx - 8) * 8 + css <= i32::MAX,
    ensures
        frame_offset(local_location(idx, css)) == -((idx - 8) * 8 + css),
        local_location(idx, css) matches Location::Memory(base, _) && base == GPR::X8,
{
}

/// A stack argument goes 32 bytes past the frame pointer plus the running
/// stack offset, whatever its index: two stack arguments placed at the same
/// running offset share the slot, and the offset then grows by 8.
pub proof fn law_stack_argument_slot_follows_the_running_offset(idx: int, other: int, stack_offset: usize)
    requires
        idx >= 6,
        other >= 6,
        32 + stack_offset <= i32::MAX,
    ensures
        call_param_location(idx, stack_offset) == Location::Memory(GPR::X8, (32 + stack_offset) as i32),
        call_param_location(idx, stack_offset) == call_param_location(other, stack_offset),
        call_param_next_offset(idx, stack_offset as int) == stack_offset + 8,
{
}

/// Register arguments leave the running stack offset as it is.
pub proof fn law_register_arguments_take_no_stack(idx: int, stack_offset: int)
    requires
        0 <= idx < 6,
    ensures
        call_param_next_offset(idx, stack_offset) == stack_offset,
        call_param_location(idx, stack_offset as usize) matches Location::GPR(r) && gpr_index(r) == 12 + idx,
{
}

/// Rounding up to the stack alignment gives the least multiple of 16 that
/// is not below the value, and rounding again changes nothing.
pub proof fn law_align16(value: int)
    requires
        0 <= value,
    ensures
        align16(value) % 16 == 0,
        value <= align16(value) < value + 16,
        align16(align16(value)) == align16(value),
{
}

/// Each word is four bytes of code.
pub proof fn law_words_le_len(ws: Seq<u32>)
    ensures
        words_le(ws).len() == 4 * ws.len(),
    decreases ws.len(),
{
    if ws.len() > 0 {
        law_words_le_len(ws.drop_last());
    }
}

/// A trap table has one listing in increasing order of offset.
pub proof fn law_trap_listing_is_unique(
    a: Seq<TrapInformation>,
    b: Seq<TrapInformation>,
    table: Map<usize, TrapCode>,
)
    requires
        lists_traps_in_order(a, table),
        lists_traps_in_order(b, table),
    ensures
        a == b,
{
    let oa = choose|offsets: Seq<usize>|
        {
            &&& offsets.len() == a.len()
            &&& forall|i: int, j: int| 0 <= i < j < offsets.len() ==> offsets[i] < offsets[j]
            &&& forall|k: usize| table.contains_key(k) <==> offsets.contains(k)
            &&& forall|i: int|
                0 <= i < offsets.len() ==> #[trigger] a[i] == (TrapInformation {
                    code_offset: offsets[i] as u32,
                    trap_code: table[offsets[i]],
                })
        };
    let ob = choose|offsets: Seq<usize>|
        {
            &&& offsets.len() == b.len()
            &&& forall|i: int, j: int| 0 <= i < j < offsets.len() ==> offsets[i] < offsets[j]
            &&& forall|k: usize| table.contains_key(k) <==> offsets.contains(k)
            &&& forall|i: int|
                0 <= i < offsets.len() ==> #[trigger] b[i] == (TrapInformation {
                    code_offset: offsets[i] as u32,
                    trap_code: table[offsets[i]],
                })
        };
    lemma_sorted_same_elements(oa, ob);
    assert(a =~= b);
}

proof fn lemma_sorted_same_elements(s: Seq<usize>, t: Seq<usize>)
    requires
        forall|i: int, j: int| 0 <= i < j < s.len() ==> s[i] < s[j],
        forall|i: int, j: int| 0 <= i < j < t.len() ==> t[i] < t[j],
        forall|k: usize| s.contains(k) <==> t.contains(k),
    ensures
        s == t,
    decreases s.len() + t.len(),
{
    if s.len() == 0 {
        if t.len() > 0 {
            assert(t.contains(t[0]));
        }
        assert(s =~= t);
    } else if t.len() == 0 {
        assert(s.contains(s[0]));
    } else {
        // The least elements agree.
        assert(s.contains(s[0]));
        let j = choose|j: int| 0 <= j < t.len() && t[j] == s[0];
        assert(t.contains(t[0]));
        let i = choose|i: int| 0 <= i < s.len() && s[i] == t[0];
        if j > 0 {
            assert(t[0] < t[j]);
            if i > 0 {
                assert(s[0] < s[i]);
            }
        }
        assert(s[0] == t[0]);
        let s1 = s.drop_first();
        let t1 = t.drop_first();
        assert forall|k: usize| s1.contains(k) implies t1.contains(k) by {
            let a = choose|a: int| 0 <= a < s1.len() && s1[a] == k;
            assert(s[a + 1] == k);
            assert(s.contains(k));
            let b = choose|b: int| 0 <= b < t.len() && t[b] == k;
            assert(s[0] < s[a + 1]);
            assert(b != 0);
            assert(t1[b - 1] == k);
        }
        assert forall|k: usize| t1.contains(k) implies s1.contains(k) by {
            let a = choose|a: int| 0 <= a < t1.len() && t1[a] == k;
            assert(t[a + 1] == k);
            assert(t.contains(k));
            let b = choose|b: int| 0 <= b < s.len() && s[b] == k;
            assert(t[0] < t[a + 1]);
            assert(b != 0);
            assert(s1[b - 1] == k);
        }
        lemma_sorted_same_elements(s1, t1);
        assert forall|i: int| 0 <= i < s.len() implies s[i] == t[i] by {
            if i > 0 {
                assert(s[i] == s1[i - 1]);
                assert(t[i] == t1[i - 1]);
            }
        }
        assert(s =~= t);
    }
}

} // verus!
