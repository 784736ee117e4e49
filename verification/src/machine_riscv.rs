//! The RISC-V machine: register bookkeeping, the placement of locals and of
//! call arguments, stack alignment and the code that it assembles.

use vstd::prelude::*;
use dynasmrt::{DynamicLabel, DynasmError};
use wasmer_types::target::{CallingConvention, CpuFeature, Target};
use wasmer_compiler::types::function::FunctionBody;
use wasmer_compiler::wasmparser::ValType as WpType;
use wasmer_types::{CompileError, FunctionType, TrapCode};
use crate::code_buffer::{
    code_buffer_finalize, code_buffer_len, code_buffer_new_label, code_bytes, code_is_settled,
    code_label_count, dynamic_label,
    emit_words, new_code_buffer, words_le, CodeBuffer,
};
use crate::emitter_riscv::{gen_std_trampoline_riscv64, std_trampoline_words, EmitterRiscv};
use crate::location::Location;
use crate::machine::{
    collect_trap_information, lists_traps_in_order, InstructionAddressMap, Offset, RegisterIndex,
    TrapInformation, TrapTable,
};
use crate::riscv_decl::{gpr_from_index, gpr_index, lemma_gpr_index_injective, lemma_gpr_index_roundtrip, Size, GPR};
use crate::wasmer::{codegen_error, function_body_of, target_has_neon, target_has_neon_of};

verus! {

/// `addi x1, x1, 1`
pub const ADDI_X1_X1_1: u32 = 0x0010_8093;

/// `addi x2, x2, 2`
pub const ADDI_X2_X2_2: u32 = 0x0021_0113;

/// `add x3, x1, x2`
pub const ADD_X3_X1_X2: u32 = 0x0020_81b3;

/// `addi a1, a1, 1`
pub const ADDI_A1_A1_1: u32 = 0x0015_8593;

/// `addi a2, a2, 2`
pub const ADDI_A2_A2_2: u32 = 0x0026_0613;

/// `add a0, a1, a2`
pub const ADD_A0_A1_A2: u32 = 0x00c5_8533;

/// `ret`, that is `jalr x0, 0(x1)`
pub const RET: u32 = 0x0000_8067;

/// The code that `AssemblerRiscv::finalize` appends: x1 += 1, x2 += 2,
/// x3 = x1 + x2, return.
pub open spec fn assembler_tail() -> Seq<u32> {
    seq![ADDI_X1_X1_1, ADDI_X2_X2_2, ADD_X3_X1_X2, RET]
}

/// The code that `MachineRiscv::assembler_finalize` appends: a1 += 1,
/// a2 += 2, a0 = a1 + a2, return.
pub open spec fn machine_tail() -> Seq<u32> {
    seq![ADDI_A1_A1_1, ADDI_A2_A2_2, ADD_A0_A1_A2, RET]
}

/// The RISC-V assembler: a code buffer, the FPU feature and the target.
pub struct AssemblerRiscv {
    /// The code buffer.
    pub inner: CodeBuffer,
    /// The floating-point feature, where one is known.
    pub simd_arch: Option<CpuFeature>,
    /// The target CPU.
    pub target: Option<Target>,
}

impl AssemblerRiscv {
    /// An assembler with an empty code buffer based at `base_addr`, no
    /// floating-point feature, and the given target. It never fails.
    pub fn new(base_addr: usize, target: Option<Target>) -> (r: Result<Self, CompileError>)
        ensures
            r is Ok,
            code_bytes(r->Ok_0.inner) == Seq::<u8>::empty(),
            code_is_settled(r->Ok_0.inner),
            r->Ok_0.simd_arch is None,
            r->Ok_0.target == target,
    {
        let simd_arch = None;
        Ok(AssemblerRiscv { inner: new_code_buffer(base_addr), simd_arch, target })
    }

    /// Appends `addi x1, x1, 1; addi x2, x2, 2; add x3, x1, x2; ret` and
    /// hands back the machine code. Where the buffer has nothing left to
    /// resolve, that is its bytes followed by those four instructions.
    pub fn finalize(self) -> (r: Result<Vec<u8>, DynasmError>)
        ensures
            code_is_settled(self.inner) ==> r is Ok,
            code_is_settled(self.inner) ==> r->Ok_0@ == code_bytes(self.inner) + words_le(
                assembler_tail(),
            ),
    {
        let mut inner = self.inner;
        let tail: [u32; 4] = [ADDI_X1_X1_1, ADDI_X2_X2_2, ADD_X3_X1_X2, RET];
        emit_words(&mut inner, &tail);
        assert(tail@ =~= assembler_tail());
        code_buffer_finalize(inner)
    }
}

/// Whether the register has its bit set in `bits`.
pub open spec fn gpr_bit(bits: u32, r: GPR) -> bool {
    (bits >> (gpr_index(r) as u32)) & 1u32 == 1u32
}

/// The registers whose bits are set in `bits`.
pub open spec fn gpr_set(bits: u32) -> Set<GPR> {
    Set::new(|r: GPR| gpr_bit(bits, r))
}

/// The registers that `pick_gpr` hands out, in the order it tries them:
/// the callee-saved `x26` down to `x18`.
pub open spec fn callee_saved_pool() -> Seq<GPR> {
    seq![GPR::X26, GPR::X25, GPR::X24, GPR::X23, GPR::X22, GPR::X21, GPR::X20, GPR::X19, GPR::X18]
}

/// The registers that `pick_temp_gpr` hands out, in the order it tries
/// them: `x17` down to `x12`.
pub open spec fn temp_pool() -> Seq<GPR> {
    seq![GPR::X17, GPR::X16, GPR::X15, GPR::X14, GPR::X13, GPR::X12]
}

/// The first register of `pool` that is not in `used`.
pub open spec fn first_unused(pool: Seq<GPR>, used: Set<GPR>) -> Option<GPR>
    decreases pool.len(),
{
    if pool.len() == 0 {
        None
    } else if !used.contains(pool[0]) {
        Some(pool[0])
    } else {
        first_unused(pool.drop_first(), used)
    }
}

/// What `first_unused` hands out is an unused register of the pool, ahead
/// of which every register of the pool is in use; where it hands out
/// nothing, the whole pool is in use.
pub proof fn lemma_first_unused(pool: Seq<GPR>, used: Set<GPR>)
    ensures
        match first_unused(pool, used) {
            Some(r) => exists|i: int|
                0 <= i < pool.len() && pool[i] == r && !used.contains(r) && forall|j: int|
                    0 <= j < i ==> used.contains(#[trigger] pool[j]),
            None => forall|j: int| 0 <= j < pool.len() ==> used.contains(#[trigger] pool[j]),
        },
    decreases pool.len(),
{
    if pool.len() > 0 && used.contains(pool[0]) {
        lemma_first_unused(pool.drop_first(), used);
        match first_unused(pool.drop_first(), used) {
            Some(r) => {
                let i = choose|i: int|
                    0 <= i < pool.len() - 1 && pool.drop_first()[i] == r && !used.contains(r)
                        && forall|j: int| 0 <= j < i ==> used.contains(#[trigger] pool.drop_first()[j]);
                assert(pool[i + 1] == r);
                assert forall|j: int| 0 <= j < i + 1 implies used.contains(#[trigger] pool[j]) by {
                    if j > 0 {
                        assert(pool[j] == pool.drop_first()[j - 1]);
                    }
                }
            },
            None => {
                assert forall|j: int| 0 <= j < pool.len() implies used.contains(#[trigger] pool[j]) by {
                    if j > 0 {
                        assert(pool[j] == pool.drop_first()[j - 1]);
                    }
                }
            },
        }
    } else if pool.len() > 0 {
        assert(pool[0] == first_unused(pool, used)->Some_0);
    }
}

proof fn lemma_bit_insert(x: u32, i: u32, j: u32)
    by (bit_vector)
    requires
        i < 32,
        j < 32,
    ensures
        ((x | (1u32 << i)) >> j) & 1u32 == if i == j { 1u32 } else { (x >> j) & 1u32 },
{
}

proof fn lemma_bit_remove(x: u32, i: u32, j: u32)
    by (bit_vector)
    requires
        i < 32,
        j < 32,
    ensures
        ((x & !(1u32 << i)) >> j) & 1u32 == if i == j { 0u32 } else { (x >> j) & 1u32 },
{
}

proof fn lemma_bit_test(x: u32, i: u32)
    by (bit_vector)
    requires
        i < 32,
    ensures
        (x & (1u32 << i) != 0u32) == ((x >> i) & 1u32 == 1u32),
{
}

/// `value` rounded up to the next multiple of 16.
pub open spec fn align16(value: int) -> int {
    if value % 16 == 0 {
        value
    } else {
        value - value % 16 + 16
    }
}

/// Where local number `idx` lives, with `callee_saved_regs_size` bytes of
/// saved registers below the frame pointer: locals 0 to 8 in `x18` to `x26`,
/// the others in the frame, 8 bytes apart, below the saved registers. The
/// frame offset is cut to 32 bits, as a cast to `i32` does.
pub open spec fn local_location(idx: int, callee_saved_regs_size: int) -> Location {
    if idx <= 8 {
        Location::GPR(gpr_from_index(18 + idx))
    } else {
        Location::Memory(
            GPR::X8,
            (-((((idx - 8) * 8 + callee_saved_regs_size) as i32) as int)) as i32,
        )
    }
}

/// Whether `local_location` can be computed without overflow: for a local
/// in the frame, its distance from the frame pointer fits in `usize`, and its
/// cut to 32 bits is not `i32::MIN`, which has no negation.
pub open spec fn local_location_fits(idx: int, callee_saved_regs_size: int) -> bool {
    idx > 8 ==> {
        &&& (idx - 8) * 8 + callee_saved_regs_size <= usize::MAX
        &&& ((idx - 8) * 8 + callee_saved_regs_size) as i32 != i32::MIN
    }
}

/// Where argument number `idx` of a call goes: arguments 0 to 5 in `x12` to
/// `x17`, the others in the caller's frame at 32 bytes past the frame
/// pointer plus the running stack offset, cut to 32 bits.
pub open spec fn call_param_location(idx: int, stack_offset: usize) -> Location {
    if idx < 6 {
        Location::GPR(gpr_from_index(12 + idx))
    } else {
        Location::Memory(GPR::X8, (32 + (stack_offset as i32)) as i32)
    }
}

/// Where parameter number `idx` arrives: parameters 0 to 5 in `x12` to
/// `x17`, the others 8 bytes apart from 32 bytes past the frame pointer,
/// cut to 32 bits.
pub open spec fn simple_param_location(idx: int) -> Location {
    if idx < 6 {
        Location::GPR(gpr_from_index(12 + idx))
    } else {
        Location::Memory(GPR::X8, (32 + (idx - 6) * 8) as i32)
    }
}

proof fn lemma_round16(value: usize, q: usize, r: usize)
    by (bit_vector)
    requires
        q == (value >> 4usize) + 1usize,
        r == q << 4usize,
    ensures
        ((value & 0xfusize) != 0usize) == (value % 16 != 0),
        value % 16 != 0 && value <= (!0usize) - 15 ==> r == value - value % 16 + 16,
        value % 16 != 0 && value > (!0usize) - 15 ==> r == 0,
{
}

proof fn lemma_all_ones(x: usize)
    by (bit_vector)
    ensures
        x <= !0usize,
{
}

/// The entries come in increasing order of source location.
pub open spec fn ordered_by_srcloc(entries: Seq<InstructionAddressMap>) -> bool {
    forall|i: int, j: int| 0 <= i < j < entries.len() ==> entries[i].srcloc <= entries[j].srcloc
}

/// The running stack offset after placing argument number `idx` of a call:
/// each argument past the sixth takes 8 bytes.
pub open spec fn call_param_next_offset(idx: int, stack_offset: int) -> int {
    if idx < 6 {
        stack_offset
    } else {
        stack_offset + 8
    }
}

/// The running stack offset before argument number `n`, when the arguments
/// of a call are placed in order from a stack offset of 0.
pub open spec fn call_param_walk_offset(n: nat) -> int
    decreases n,
{
    if n == 0 {
        0
    } else {
        call_param_next_offset(n - 1, call_param_walk_offset((n - 1) as nat))
    }
}

/// What a RISC-V machine holds, as mathematical values.
pub struct MachineView {
    /// The integer registers in use.
    pub used_gprs: Set<GPR>,
    /// The bits of the floating-point registers in use.
    pub used_simd: u32,
    /// The code assembled so far.
    pub code: Seq<u8>,
    /// The trapping instructions by offset.
    pub traps: Map<usize, TrapCode>,
    /// The map from source locations to native code.
    pub address_map: Seq<InstructionAddressMap>,
    /// The source location of the current operator.
    pub src_loc: u32,
    /// Whether the machine may use floating-point instructions.
    pub has_fpu: bool,
    /// How many labels the machine has handed out.
    pub labels: nat,
}

/// The RISC-V machine state and code emitter.
pub struct MachineRiscv {
    assembler: CodeBuffer,
    used_gprs: u32,
    used_simd: u32,
    trap_table: TrapTable,
    instructions_address_map: Vec<InstructionAddressMap>,
    src_loc: u32,
    has_fpu: bool,
}

impl View for MachineRiscv {
    type V = MachineView;

    closed spec fn view(&self) -> MachineView {
        MachineView {
            used_gprs: gpr_set(self.used_gprs),
            used_simd: self.used_simd,
            code: code_bytes(self.assembler),
            traps: self.trap_table.offset_to_code@,
            address_map: self.instructions_address_map@,
            src_loc: self.src_loc,
            has_fpu: self.has_fpu,
            labels: code_label_count(self.assembler),
        }
    }
}

impl MachineRiscv {
    /// The machine never holds a relocation to resolve or a recorded error
    /// (it emits only fixed instruction words), and its address map is
    /// ordered by source location.
    #[verifier::type_invariant]
    spec fn well_formed(self) -> bool {
        &&& code_is_settled(self.assembler)
        &&& ordered_by_srcloc(self.instructions_address_map@)
    }

    /// A machine for the given target: it may use floating point where the
    /// target's CPU features name NEON, and never without a target.
    pub fn new(target: Option<Target>) -> (m: Self)
        ensures
            m@.used_gprs == Set::<GPR>::empty(),
            m@.used_simd == 0,
            m@.code == Seq::<u8>::empty(),
            m@.traps == Map::<usize, TrapCode>::empty(),
            m@.address_map == Seq::<InstructionAddressMap>::empty(),
            m@.src_loc == 0,
            m@.labels == 0,
            target is None ==> !m@.has_fpu,
            target matches Some(t) ==> m@.has_fpu == target_has_neon_of(t),
    {
        let has_fpu = match target {
            Some(ref t) => target_has_neon(t),
            None => false,
        };
        Self::with_fpu(has_fpu)
    }

    /// A fresh machine, with or without floating point: no register in use,
    /// no code, no trap, no address map, source location 0.
    pub fn with_fpu(has_fpu: bool) -> (m: Self)
        ensures
            m@.used_gprs == Set::<GPR>::empty(),
            m@.used_simd == 0,
            m@.code == Seq::<u8>::empty(),
            m@.traps == Map::<usize, TrapCode>::empty(),
            m@.address_map == Seq::<InstructionAddressMap>::empty(),
            m@.src_loc == 0,
            m@.has_fpu == has_fpu,
            m@.labels == 0,
    {
        let m = MachineRiscv {
            assembler: new_code_buffer(0),
            used_gprs: 0,
            used_simd: 0,
            trap_table: TrapTable::new(),
            instructions_address_map: Vec::new(),
            src_loc: 0,
            has_fpu,
        };
        proof {
            assert forall|r: GPR| !gpr_bit(0u32, r) by {
                let i: u32 = gpr_index(r) as u32;
                assert((0u32 >> i) & 1u32 == 0u32) by (bit_vector);
            }
            assert(m@.used_gprs =~= Set::<GPR>::empty());
        }
        m
    }

    fn used_gprs_contains(&self, r: &GPR) -> (b: bool)
        ensures
            b == self@.used_gprs.contains(*r),
    {
        let i: u32 = r.into_index() as u32;
        proof {
            lemma_bit_test(self.used_gprs, i);
        }
        self.used_gprs & (1u32 << i) != 0
    }

    fn used_gprs_insert(&mut self, r: GPR)
        ensures
            final(self)@ == (MachineView { used_gprs: old(self)@.used_gprs.insert(r), ..old(self)@ }),
    {
        proof {
            use_type_invariant(&*self);
        }
        let i: u32 = r.into_index() as u32;
        let old_bits: u32 = self.used_gprs;
        self.used_gprs = self.used_gprs | (1u32 << i);
        proof {
            assert forall|g: GPR|
                self@.used_gprs.contains(g) == old(self)@.used_gprs.insert(r).contains(g) by {
                lemma_bit_insert(old_bits, i, gpr_index(g) as u32);
                lemma_gpr_index_injective(g, r);
                lemma_gpr_index_roundtrip(g);
                lemma_gpr_index_roundtrip(r);
            }
            assert(self@.used_gprs =~= old(self)@.used_gprs.insert(r));
        }
    }

    fn used_gprs_remove(&mut self, r: &GPR) -> (b: bool)
        ensures
            b == old(self)@.used_gprs.contains(*r),
            final(self)@ == (MachineView { used_gprs: old(self)@.used_gprs.remove(*r), ..old(self)@ }),
    {
        proof {
            use_type_invariant(&*self);
        }
        let ret = self.used_gprs_contains(r);
        let i: u32 = r.into_index() as u32;
        let old_bits: u32 = self.used_gprs;
        self.used_gprs = self.used_gprs & !(1u32 << i);
        proof {
            assert forall|g: GPR| gpr_bit(self.used_gprs, g) == (g != *r && gpr_bit(old_bits, g)) by {
                lemma_bit_remove(old_bits, i, gpr_index(g) as u32);
                lemma_gpr_index_injective(g, *r);
                lemma_gpr_index_roundtrip(g);
                lemma_gpr_index_roundtrip(*r);
            }
            assert(self@.used_gprs =~= old(self)@.used_gprs.remove(*r));
        }
        ret
    }

    fn pick_from(&self, regs: &[GPR]) -> (r: Option<GPR>)
        ensures
            r == first_unused(regs@, self@.used_gprs),
    {
        let mut i: usize = 0;
        assert(regs@.subrange(0, regs@.len() as int) =~= regs@);
        while i < regs.len()
            invariant
                i <= regs.len(),
                first_unused(regs@, self@.used_gprs) == first_unused(
                    regs@.subrange(i as int, regs@.len() as int),
                    self@.used_gprs,
                ),
            decreases regs.len() - i,
        {
            let r = regs[i];
            if !self.used_gprs_contains(&r) {
                return Some(r);
            }
            assert(regs@.subrange(i as int, regs@.len() as int).drop_first() =~= regs@.subrange(
                i as int + 1,
                regs@.len() as int,
            ));
            i = i + 1;
        }
        None
    }

    /// The byte offset of the end of the code assembled so far.
    pub fn assembler_get_offset(&self) -> (r: Offset)
        ensures
            r.0 == self@.code.len(),
    {
        self.assembler.get_offset()
    }

    /// The register's number as a register index.
    pub fn index_from_gpr(&self, x: GPR) -> (r: RegisterIndex)
        ensures
            r.0 == gpr_index(x),
    {
        RegisterIndex(x.into_index())
    }

    /// The register that holds the VM context: `x27`.
    pub fn get_vmctx_reg(&self) -> (r: GPR)
        ensures
            r == GPR::X27,
    {
        GPR::X27
    }

    /// The first callee-saved register of `x26` down to `x18` that is not in
    /// use, or `None` where all of them are.
    pub fn pick_gpr(&self) -> (r: Option<GPR>)
        ensures
            r == first_unused(callee_saved_pool(), self@.used_gprs),
    {
        let regs: [GPR; 9] = [
            GPR::X26,
            GPR::X25,
            GPR::X24,
            GPR::X23,
            GPR::X22,
            GPR::X21,
            GPR::X20,
            GPR::X19,
            GPR::X18,
        ];
        assert(regs@ =~= callee_saved_pool());
        self.pick_from(&regs)
    }

    /// The first temporary register of `x17` down to `x12` that is not in
    /// use, or `None` where all of them are.
    pub fn pick_temp_gpr(&self) -> (r: Option<GPR>)
        ensures
            r == first_unused(temp_pool(), self@.used_gprs),
    {
        let regs: [GPR; 6] = [GPR::X17, GPR::X16, GPR::X15, GPR::X14, GPR::X13, GPR::X12];
        assert(regs@ =~= temp_pool());
        self.pick_from(&regs)
    }

    /// Marks a register in use as free again. The register must be in use.
    pub fn release_gpr(&mut self, gpr: GPR)
        requires
            old(self)@.used_gprs.contains(gpr),
        ensures
            final(self)@ == (MachineView { used_gprs: old(self)@.used_gprs.remove(gpr), ..old(self)@ }),
    {
        let removed = self.used_gprs_remove(&gpr);
        assert(removed);
    }

    /// Marks a register as in use.
    pub fn reserve_gpr(&mut self, gpr: GPR)
        ensures
            final(self)@ == (MachineView { used_gprs: old(self)@.used_gprs.insert(gpr), ..old(self)@ }),
    {
        self.used_gprs_insert(gpr);
    }

    /// Rounds a stack adjustment up to a multiple of 16, the stack alignment
    /// of the RISC-V calling convention. Past the last multiple of 16 that
    /// fits in `usize` the rounding wraps to 0.
    pub fn round_stack_adjust(&self, value: usize) -> (r: usize)
        ensures
            value <= usize::MAX - 15 ==> r == align16(value as int),
            value > usize::MAX - 15 && value % 16 != 0 ==> r == 0,
            value % 16 == 0 ==> r == value,
    {
        if value & 0xf != 0 {
            assert((value >> 4usize) < !0usize) by (bit_vector);
            let q: usize = (value >> 4) + 1;
            let r: usize = q << 4;
            proof {
                lemma_round16(value, q, r);
                lemma_all_ones(usize::MAX);
            }
            r
        } else {
            proof {
                assert(((value & 0xfusize) != 0usize) == (value % 16 != 0)) by (bit_vector);
            }
            value
        }
    }

    /// Records the source location of the current operator.
    pub fn set_srcloc(&mut self, offset: u32)
        ensures
            final(self)@ == (MachineView { src_loc: offset, ..old(self)@ }),
    {
        proof {
            use_type_invariant(&*self);
        }
        self.src_loc = offset;
    }

    /// The trapping instructions, in increasing order of offset.
    pub fn collect_trap_information(&self) -> (r: Vec<TrapInformation>)
        ensures
            r.len() == self@.traps.len(),
            lists_traps_in_order(r@, self@.traps),
    {
        collect_trap_information(&self.trap_table)
    }

    /// The map from source locations to native code.
    pub fn instructions_address_map(&self) -> (r: Vec<InstructionAddressMap>)
        ensures
            r@ == self@.address_map,
            ordered_by_srcloc(r@),
    {
        proof {
            use_type_invariant(self);
        }
        let mut r: Vec<InstructionAddressMap> = Vec::new();
        let mut i: usize = 0;
        while i < self.instructions_address_map.len()
            invariant
                i <= self.instructions_address_map.len(),
                r@ == self.instructions_address_map@.subrange(0, i as int),
            decreases self.instructions_address_map.len() - i,
        {
            r.push(self.instructions_address_map[i]);
            assert(r@ =~= self.instructions_address_map@.subrange(0, i as int + 1));
            i = i + 1;
        }
        assert(r@ =~= self.instructions_address_map@);
        r
    }

    /// Grows the stack frame; the back end emits nothing for it yet.
    pub fn adjust_stack(&mut self, delta_stack_offset: u32) -> (r: Result<(), CompileError>)
        ensures
            r is Ok,
            *final(self) == *old(self),
    {
        Ok(())
    }

    /// The register that points at the locals in the frame: `x8`.
    pub fn local_pointer(&self) -> (r: GPR)
        ensures
            r == GPR::X8,
    {
        GPR::X8
    }

    /// Whether local number `idx` lives in the frame rather than in a
    /// register.
    pub fn is_local_on_stack(&self, idx: usize) -> (r: bool)
        ensures
            r == (idx > 8),
            r == (local_location(idx as int, 0) is Memory),
    {
        idx > 8
    }

    /// Where local number `idx` lives: see `local_location`.
    pub fn get_local_location(&self, idx: usize, callee_saved_regs_size: usize) -> (r: Location)
        requires
            local_location_fits(idx as int, callee_saved_regs_size as int),
        ensures
            r == local_location(idx as int, callee_saved_regs_size as int),
    {
        match idx {
            0 => Location::GPR(GPR::X18),
            1 => Location::GPR(GPR::X19),
            2 => Location::GPR(GPR::X20),
            3 => Location::GPR(GPR::X21),
            4 => Location::GPR(GPR::X22),
            5 => Location::GPR(GPR::X23),
            6 => Location::GPR(GPR::X24),
            7 => Location::GPR(GPR::X25),
            8 => Location::GPR(GPR::X26),
            _ => Location::Memory(GPR::X8, -(((idx - 8) * 8 + callee_saved_regs_size) as i32)),
        }
    }

    /// Moves a local into its stack slot; the back end emits nothing for it
    /// yet.
    pub fn move_local(&mut self, stack_offset: i32, location: Location) -> (r: Result<(), CompileError>)
        ensures
            r is Ok,
            *final(self) == *old(self),
    {
        Ok(())
    }

    /// The locations that a call must save: none so far.
    pub fn list_to_save(&self, calling_convention: CallingConvention) -> (r: Vec<Location>)
        ensures
            r@ == Seq::<Location>::empty(),
    {
        Vec::new()
    }

    /// Where argument number `idx` of a call goes (see `call_param_location`);
    /// each argument past the sixth advances the running stack offset by 8.
    pub fn get_call_param_location(
        &self,
        idx: usize,
        sz: Size,
        stack_offset: &mut usize,
        calling_convention: CallingConvention,
    ) -> (r: Location)
        requires
            idx >= 6 ==> *old(stack_offset) + 8 <= usize::MAX,
            idx >= 6 ==> 32 + (*old(stack_offset) as i32) <= i32::MAX,
        ensures
            r == call_param_location(idx as int, *old(stack_offset)),
            *final(stack_offset) == call_param_next_offset(idx as int, *old(stack_offset) as int),
    {
        match idx {
            0 => Location::GPR(GPR::X12),
            1 => Location::GPR(GPR::X13),
            2 => Location::GPR(GPR::X14),
            3 => Location::GPR(GPR::X15),
            4 => Location::GPR(GPR::X16),
            5 => Location::GPR(GPR::X17),
            _ => {
                let loc = Location::Memory(GPR::X8, 16 * 2 + *stack_offset as i32);
                *stack_offset += 8;
                loc
            },
        }
    }

    /// Where parameter number `idx` arrives: see `simple_param_location`.
    pub fn get_simple_param_location(&self, idx: usize, calling_convention: CallingConvention) -> (r: Location)
        requires
            idx >= 6 ==> 32 + (idx - 6) * 8 <= usize::MAX,
        ensures
            r == simple_param_location(idx as int),
    {
        match idx {
            0 => Location::GPR(GPR::X12),
            1 => Location::GPR(GPR::X13),
            2 => Location::GPR(GPR::X14),
            3 => Location::GPR(GPR::X15),
            4 => Location::GPR(GPR::X16),
            5 => Location::GPR(GPR::X17),
            _ => Location::Memory(GPR::X8, (16 * 2 + (idx - 6) * 8) as i32),
        }
    }

    /// Moves a value between locations; the back end emits nothing for it
    /// yet.
    pub fn move_location(&mut self, size: Size, source: Location, dest: Location) -> (r: Result<(), CompileError>)
        ensures
            r is Ok,
            *final(self) == *old(self),
    {
        Ok(())
    }

    /// Moves a value between locations, widening it; the back end emits
    /// nothing for it yet.
    pub fn move_location_extend(
        &mut self,
        size_val: Size,
        signed: bool,
        source: Location,
        size_op: Size,
        dest: Location,
    ) -> (r: Result<(), CompileError>)
        ensures
            r is Ok,
            *final(self) == *old(self),
    {
        Ok(())
    }

    /// Restores the registers saved in the frame; the back end emits nothing
    /// for it yet.
    pub fn restore_saved_area(&mut self, saved_area_offset: i32) -> (r: Result<(), CompileError>)
        ensures
            r is Ok,
            *final(self) == *old(self),
    {
        Ok(())
    }

    /// Pops a location off the stack; the back end emits nothing for it yet.
    pub fn pop_location(&mut self, location: Location) -> (r: Result<(), CompileError>)
        ensures
            r is Ok,
            *final(self) == *old(self),
    {
        Ok(())
    }

    /// Appends `addi a1, a1, 1; addi a2, a2, 2; add a0, a1, a2; ret` and
    /// hands back the machine code: the code assembled so far followed by
    /// those four instructions. It never fails.
    pub fn assembler_finalize(self) -> (r: Result<Vec<u8>, CompileError>)
        ensures
            r is Ok,
            r->Ok_0@ == self@.code + words_le(machine_tail()),
    {
        proof {
            use_type_invariant(&self);
        }
        let ghost code = self@.code;
        let mut assembler = self.assembler;
        let tail: [u32; 4] = [ADDI_A1_A1_1, ADDI_A2_A2_2, ADD_A0_A1_A2, RET];
        emit_words(&mut assembler, &tail);
        assert(tail@ =~= machine_tail());
        match code_buffer_finalize(assembler) {
            Ok(bytes) => Ok(bytes),
            Err(err) => Err(codegen_error(err)),
        }
    }

    /// The byte offset of the end of the code assembled so far.
    pub fn get_offset(&self) -> (r: Offset)
        ensures
            r.0 == self@.code.len(),
    {
        self.assembler.get_offset()
    }

    /// Ends the current function; the back end emits nothing for it yet.
    pub fn finalize_function(&mut self) -> (r: Result<(), CompileError>)
        ensures
            r is Ok,
            *final(self) == *old(self),
    {
        Ok(())
    }

    /// Emits the function prologue; the back end emits nothing for it yet.
    pub fn emit_function_prolog(&mut self) -> (r: Result<(), CompileError>)
        ensures
            r is Ok,
            *final(self) == *old(self),
    {
        Ok(())
    }

    /// Emits the function epilogue; the back end emits nothing for it yet.
    pub fn emit_function_epilog(&mut self) -> (r: Result<(), CompileError>)
        ensures
            r is Ok,
            *final(self) == *old(self),
    {
        Ok(())
    }

    /// Moves the function's return value into the return registers; the
    /// back end emits nothing for it yet.
    pub fn emit_function_return_value(
        &mut self,
        ty: WpType,
        cannonicalize: bool,
        loc: Location,
    ) -> (r: Result<(), CompileError>)
        ensures
            r is Ok,
            *final(self) == *old(self),
    {
        Ok(())
    }

    /// Emits a return; the back end emits nothing for it yet.
    pub fn emit_ret(&mut self) -> (r: Result<(), CompileError>)
        ensures
            r is Ok,
            *final(self) == *old(self),
    {
        Ok(())
    }

    /// Moves a value between locations, using a scratch register where the
    /// instruction set needs one; the back end emits nothing for it yet.
    pub fn emit_relaxed_mov(&mut self, sz: Size, src: Location, dst: Location) -> (r: Result<(), CompileError>)
        ensures
            r is Ok,
            *final(self) == *old(self),
    {
        Ok(())
    }

    /// Adds two 32-bit values; the back end emits nothing for it yet.
    pub fn emit_binop_add32(&mut self, loc_a: Location, loc_b: Location, ret: Location) -> (r: Result<(), CompileError>)
        ensures
            r is Ok,
            *final(self) == *old(self),
    {
        Ok(())
    }

    /// Emits a trapping instruction; the back end emits nothing for it yet.
    pub fn emit_illegal_op(&mut self, trp: TrapCode) -> (r: Result<(), CompileError>)
        ensures
            r is Ok,
            *final(self) == *old(self),
    {
        Ok(())
    }

    /// A new label for the code being assembled: the label numbered by how
    /// many the machine has handed out, which differs from each of those.
    /// The code stays as it is.
    pub fn get_label(&mut self) -> (r: DynamicLabel)
        ensures
            final(self)@ == (MachineView { labels: old(self)@.labels + 1, ..old(self)@ }),
            r == dynamic_label(old(self)@.labels),
            forall|n: nat| n < old(self)@.labels ==> #[trigger] dynamic_label(n) != r,
    {
        proof {
            use_type_invariant(&*self);
        }
        let mut assembler = new_code_buffer(0);
        std::mem::swap(&mut assembler, &mut self.assembler);
        let label = code_buffer_new_label(&mut assembler);
        std::mem::swap(&mut assembler, &mut self.assembler);
        label
    }

    /// Places a label at the current offset; the back end emits nothing for
    /// it yet.
    pub fn emit_label(&mut self, label: DynamicLabel) -> (r: Result<(), CompileError>)
        ensures
            r is Ok,
            *final(self) == *old(self),
    {
        Ok(())
    }

    /// The trampoline through which the host calls a function of signature
    /// `sig`: see `gen_std_trampoline_riscv64`.
    pub fn gen_std_trampoline(&self, sig: &FunctionType, calling_convention: CallingConvention) -> (r: Result<FunctionBody, CompileError>)
        ensures
            r is Ok,
            r->Ok_0 == function_body_of(words_le(std_trampoline_words())),
    {
        gen_std_trampoline_riscv64(sig, calling_convention)
    }

    /// Emits the stack-overflow check; the back end emits nothing for it yet.
    pub fn insert_stackoverflow(&mut self)
        ensures
            *final(self) == *old(self),
    {
    }
}

} // verus!