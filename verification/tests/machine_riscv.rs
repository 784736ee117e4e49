use singlepass_riscv::emitter_riscv::EmitterRiscv;
use singlepass_riscv::location::Location;
use singlepass_riscv::machine::{collect_trap_information, TrapInformation, TrapTable};
use singlepass_riscv::machine_riscv::{AssemblerRiscv, MachineRiscv};
use singlepass_riscv::riscv_decl::{Size, GPR};
use wasmer_types::target::CallingConvention;
use wasmer_types::TrapCode;

fn cc() -> CallingConvention {
    CallingConvention::SystemV
}

const CALLEE_SAVED: [GPR; 9] = [
    GPR::X26,
    GPR::X25,
    GPR::X24,
    GPR::X23,
    GPR::X22,
    GPR::X21,
    GPR::X20,
    GPR::X19,
    GPR::X18,
];

const TEMPS: [GPR; 6] = [GPR::X17, GPR::X16, GPR::X15, GPR::X14, GPR::X13, GPR::X12];

#[test]
fn pick_gpr_takes_the_callee_saved_registers_from_x26_down() {
    let mut m = MachineRiscv::new(None);
    for r in CALLEE_SAVED {
        assert_eq!(m.pick_gpr(), Some(r));
        m.reserve_gpr(r);
    }
    assert_eq!(m.pick_gpr(), None);
}

#[test]
fn pick_temp_gpr_takes_x17_down_to_x12() {
    let mut m = MachineRiscv::new(None);
    for r in TEMPS {
        assert_eq!(m.pick_temp_gpr(), Some(r));
        m.reserve_gpr(r);
    }
    assert_eq!(m.pick_temp_gpr(), None);
    // The callee-saved pool is not touched by the temporaries.
    assert_eq!(m.pick_gpr(), Some(GPR::X26));
}

#[test]
fn pick_skips_registers_in_use() {
    let mut m = MachineRiscv::new(None);
    m.reserve_gpr(GPR::X26);
    m.reserve_gpr(GPR::X24);
    assert_eq!(m.pick_gpr(), Some(GPR::X25));
    m.reserve_gpr(GPR::X25);
    assert_eq!(m.pick_gpr(), Some(GPR::X23));
}

#[test]
fn reserving_a_register_outside_the_pools_changes_no_pick() {
    let mut m = MachineRiscv::new(None);
    m.reserve_gpr(GPR::X27);
    m.reserve_gpr(GPR::X8);
    m.reserve_gpr(GPR::X31);
    assert_eq!(m.pick_gpr(), Some(GPR::X26));
    assert_eq!(m.pick_temp_gpr(), Some(GPR::X17));
}

#[test]
fn release_undoes_reserve() {
    let mut m = MachineRiscv::new(None);
    let r = m.pick_gpr().unwrap();
    m.reserve_gpr(r);
    assert_ne!(m.pick_gpr(), Some(r));
    m.release_gpr(r);
    assert_eq!(m.pick_gpr(), Some(r));
}

#[test]
fn release_frees_only_the_given_register() {
    let mut m = MachineRiscv::new(None);
    m.reserve_gpr(GPR::X17);
    m.reserve_gpr(GPR::X16);
    m.release_gpr(GPR::X16);
    assert_eq!(m.pick_temp_gpr(), Some(GPR::X16));
    m.release_gpr(GPR::X17);
    assert_eq!(m.pick_temp_gpr(), Some(GPR::X17));
}

#[test]
fn fixed_registers() {
    let m = MachineRiscv::new(None);
    assert_eq!(m.get_vmctx_reg(), GPR::X27);
    assert_eq!(m.local_pointer(), GPR::X8);
    assert_eq!(m.index_from_gpr(GPR::X0).0, 0);
    assert_eq!(m.index_from_gpr(GPR::X13).0, 13);
    assert_eq!(m.index_from_gpr(GPR::X31).0, 31);
    assert_eq!(GPR::X21.into_index(), 21);
}

#[test]
fn round_stack_adjust_rounds_up_to_16() {
    let m = MachineRiscv::new(None);
    assert_eq!(m.round_stack_adjust(0), 0);
    assert_eq!(m.round_stack_adjust(1), 16);
    assert_eq!(m.round_stack_adjust(15), 16);
    assert_eq!(m.round_stack_adjust(16), 16);
    assert_eq!(m.round_stack_adjust(17), 32);
    assert_eq!(m.round_stack_adjust(40), 48);
    assert_eq!(m.round_stack_adjust(usize::MAX - 15), usize::MAX - 15);
    assert_eq!(m.round_stack_adjust(usize::MAX - 31), usize::MAX - 31);
    assert_eq!(m.round_stack_adjust(usize::MAX - 30), usize::MAX - 15);
}

#[test]
fn round_stack_adjust_wraps_past_the_top() {
    let m = MachineRiscv::new(None);
    assert_eq!(m.round_stack_adjust(usize::MAX), 0);
    assert_eq!(m.round_stack_adjust(usize::MAX - 14), 0);
}

#[test]
fn round_stack_adjust_is_idempotent() {
    let m = MachineRiscv::new(None);
    for v in [0usize, 3, 16, 31, 100, 4097] {
        let once = m.round_stack_adjust(v);
        assert_eq!(once % 16, 0);
        assert!(v <= once && once < v + 16);
        assert_eq!(m.round_stack_adjust(once), once);
    }
}

#[test]
fn first_nine_locals_live_in_callee_saved_registers() {
    let m = MachineRiscv::new(None);
    let regs = [
        GPR::X18,
        GPR::X19,
        GPR::X20,
        GPR::X21,
        GPR::X22,
        GPR::X23,
        GPR::X24,
        GPR::X25,
        GPR::X26,
    ];
    for (idx, r) in regs.iter().enumerate() {
        assert_eq!(m.get_local_location(idx, 48), Location::GPR(*r));
        assert!(!m.is_local_on_stack(idx));
    }
}

#[test]
fn later_locals_live_below_the_saved_registers() {
    let m = MachineRiscv::new(None);
    assert_eq!(m.get_local_location(9, 0), Location::Memory(GPR::X8, -8));
    assert_eq!(m.get_local_location(9, 16), Location::Memory(GPR::X8, -24));
    assert_eq!(m.get_local_location(10, 16), Location::Memory(GPR::X8, -32));
    assert_eq!(m.get_local_location(20, 0), Location::Memory(GPR::X8, -96));
    assert!(m.is_local_on_stack(9));
    assert!(m.is_local_on_stack(1000));
}

#[test]
fn local_frame_offsets_are_cut_to_32_bits() {
    let m = MachineRiscv::new(None);
    // (idx - 8) * 8 is 2^32 + 8 here; its cut to 32 bits is 8.
    let idx = 8 + (1usize << 29) + 1;
    assert_eq!(m.get_local_location(idx, 0), Location::Memory(GPR::X8, -8));
}

#[test]
fn call_params_fill_x12_to_x17_then_the_stack() {
    let m = MachineRiscv::new(None);
    let mut stack_offset = 0usize;
    for (idx, r) in TEMPS.iter().rev().enumerate() {
        let loc = m.get_call_param_location(idx, Size::S64, &mut stack_offset, cc());
        assert_eq!(loc, Location::GPR(*r));
        assert_eq!(stack_offset, 0);
    }
    assert_eq!(
        m.get_call_param_location(6, Size::S64, &mut stack_offset, cc()),
        Location::Memory(GPR::X8, 32)
    );
    assert_eq!(stack_offset, 8);
    assert_eq!(
        m.get_call_param_location(7, Size::S32, &mut stack_offset, cc()),
        Location::Memory(GPR::X8, 40)
    );
    assert_eq!(stack_offset, 16);
}

#[test]
fn call_param_stack_slot_follows_the_running_offset() {
    let m = MachineRiscv::new(None);
    let mut stack_offset = 100usize;
    assert_eq!(
        m.get_call_param_location(12, Size::S64, &mut stack_offset, cc()),
        Location::Memory(GPR::X8, 132)
    );
    assert_eq!(stack_offset, 108);
}

#[test]
fn simple_params() {
    let m = MachineRiscv::new(None);
    assert_eq!(m.get_simple_param_location(0, cc()), Location::GPR(GPR::X12));
    assert_eq!(m.get_simple_param_location(5, cc()), Location::GPR(GPR::X17));
    assert_eq!(m.get_simple_param_location(6, cc()), Location::Memory(GPR::X8, 32));
    assert_eq!(m.get_simple_param_location(9, cc()), Location::Memory(GPR::X8, 56));
}

#[test]
fn caller_and_callee_agree_on_parameter_places() {
    let m = MachineRiscv::new(None);
    let mut stack_offset = 0usize;
    for idx in 0..20 {
        let caller = m.get_call_param_location(idx, Size::S64, &mut stack_offset, cc());
        assert_eq!(caller, m.get_simple_param_location(idx, cc()));
    }
    assert_eq!(stack_offset, 8 * (20 - 6));
}

#[test]
fn distinct_locals_have_distinct_places() {
    let m = MachineRiscv::new(None);
    let locs: Vec<Location> = (0..30).map(|i| m.get_local_location(i, 24)).collect();
    for i in 0..locs.len() {
        for j in 0..locs.len() {
            if i != j {
                assert_ne!(locs[i], locs[j]);
            }
        }
    }
}

#[test]
fn assembler_finalize_appends_the_sum_sequence() {
    let m = MachineRiscv::new(None);
    let code = m.assembler_finalize().unwrap();
    assert_eq!(
        code,
        vec![
            0x93, 0x85, 0x15, 0x00, // addi a1, a1, 1
            0x13, 0x06, 0x26, 0x00, // addi a2, a2, 2
            0x33, 0x85, 0xc5, 0x00, // add a0, a1, a2
            0x67, 0x80, 0x00, 0x00, // ret
        ]
    );
}

#[test]
fn labels_emit_no_code() {
    let mut m = MachineRiscv::new(None);
    assert_eq!(m.get_offset().0, 0);
    let a = m.get_label();
    let b = m.get_label();
    assert_ne!(a, b);
    assert_eq!(a.get_id(), 0);
    assert_eq!(b.get_id(), 1);
    assert_eq!(m.get_offset().0, 0);
    assert_eq!(m.assembler_get_offset().0, 0);
    assert!(m.emit_label(a).is_ok());
    assert_eq!(m.assembler_finalize().unwrap().len(), 16);
}

#[test]
fn placeholder_operations_succeed_and_emit_nothing() {
    let mut m = MachineRiscv::new(None);
    m.set_srcloc(7);
    assert!(m.adjust_stack(32).is_ok());
    assert!(m.move_local(-8, Location::GPR(GPR::X18)).is_ok());
    assert!(m
        .move_location(Size::S64, Location::GPR(GPR::X10), Location::GPR(GPR::X11))
        .is_ok());
    assert!(m
        .move_location_extend(
            Size::S32,
            true,
            Location::GPR(GPR::X10),
            Size::S64,
            Location::GPR(GPR::X11)
        )
        .is_ok());
    assert!(m.restore_saved_area(16).is_ok());
    assert!(m.pop_location(Location::GPR(GPR::X10)).is_ok());
    assert!(m.finalize_function().is_ok());
    assert!(m.emit_function_prolog().is_ok());
    assert!(m.emit_function_epilog().is_ok());
    assert!(m.emit_illegal_op(TrapCode::UnreachableCodeReached).is_ok());
    m.insert_stackoverflow();
    assert!(m.emit_ret().is_ok());
    assert!(m
        .emit_relaxed_mov(Size::S64, Location::GPR(GPR::X10), Location::GPR(GPR::X11))
        .is_ok());
    assert!(m
        .emit_binop_add32(Location::GPR(GPR::X10), Location::GPR(GPR::X11), Location::GPR(GPR::X12))
        .is_ok());
    assert!(m.list_to_save(cc()).is_empty());
    assert_eq!(m.get_offset().0, 0);
    assert!(m.collect_trap_information().is_empty());
    assert!(m.instructions_address_map().is_empty());
}

#[test]
fn trap_information_is_listed_by_offset() {
    let mut table = TrapTable::new();
    table.offset_to_code.insert(40, TrapCode::HeapAccessOutOfBounds);
    table.offset_to_code.insert(8, TrapCode::StackOverflow);
    table.offset_to_code.insert(24, TrapCode::UnreachableCodeReached);
    let infos = collect_trap_information(&table);
    assert_eq!(
        infos,
        vec![
            TrapInformation { code_offset: 8, trap_code: TrapCode::StackOverflow },
            TrapInformation { code_offset: 24, trap_code: TrapCode::UnreachableCodeReached },
            TrapInformation { code_offset: 40, trap_code: TrapCode::HeapAccessOutOfBounds },
        ]
    );
}

#[test]
fn trap_offsets_are_cut_to_32_bits() {
    let mut table = TrapTable::new();
    table.offset_to_code.insert((1usize << 32) + 5, TrapCode::StackOverflow);
    let infos = collect_trap_information(&table);
    assert_eq!(infos, vec![TrapInformation { code_offset: 5, trap_code: TrapCode::StackOverflow }]);
}

#[test]
fn empty_trap_table_lists_nothing() {
    assert!(collect_trap_information(&TrapTable::new()).is_empty());
}

#[test]
fn assembler_riscv_new_starts_empty() {
    let a = AssemblerRiscv::new(0x1000, None).unwrap();
    assert!(a.simd_arch.is_none());
    assert!(a.target.is_none());
    assert_eq!(a.inner.get_offset().0, 0);
}

#[test]
fn assembler_riscv_finalize_appends_the_sum_sequence() {
    let a = AssemblerRiscv::new(0, None).unwrap();
    let code = a.finalize().unwrap();
    assert_eq!(
        code,
        vec![
            0x93, 0x80, 0x10, 0x00, // addi x1, x1, 1
            0x13, 0x01, 0x21, 0x00, // addi x2, x2, 2
            0xb3, 0x81, 0x20, 0x00, // add x3, x1, x2
            0x67, 0x80, 0x00, 0x00, // ret
        ]
    );
}
