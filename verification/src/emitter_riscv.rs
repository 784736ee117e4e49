use vstd::prelude::*;
use wasmer_compiler::types::function::FunctionBody;
use wasmer_types::target::CallingConvention;
use wasmer_types::{CompileError, FunctionType};
use crate::code_buffer::{
    code_buffer_finalize, code_buffer_len, code_bytes, emit_words, new_code_buffer, words_le,
    CodeBuffer,
};
use crate::machine_riscv::RET;
use crate::wasmer::{function_body, function_body_of, shrink_to_fit};
use crate::machine::Offset;

verus! {

/// Branch conditions of the RISC-V emitter. The back end defines none yet:
/// the one variant holds a value of std's empty type, so, as for an enum
/// without variants, no value of `Condition` can be made.
#[derive(Copy, Clone, Debug, Eq, PartialEq)]
pub enum Condition {
    Undefined(core::convert::Infallible),
}

/// The RISC-V emitter: what the code generator asks of an assembler.
pub trait EmitterRiscv {
    /// The code emitted so far.
    spec fn emitted(&self) -> Seq<u8>;

    /// The byte offset of the end of the code emitted so far.
    fn get_offset(&self) -> (r: Offset)
        ensures
            r.0 == self.emitted().len(),
    ;
}

impl EmitterRiscv for CodeBuffer {
    open spec fn emitted(&self) -> Seq<u8> {
        code_bytes(*self)
    }

    fn get_offset(&self) -> (r: Offset) {
        Offset(code_buffer_len(self))
    }
}

/// `mv x8, x1`, that is `addi x8, x1, 0`
pub const MV_X8_X1: u32 = 0x0000_8413;

/// `mv x12, x2`, that is `addi x12, x2, 0`
pub const MV_X12_X2: u32 = 0x0001_0613;

/// `jalr x8`, that is `jalr x1, 0(x8)`
pub const JALR_X8: u32 = 0x0004_00e7;

/// The standard trampoline: the function pointer from `x1` into `x8`, the
/// argument pointer from `x2` into `x12`, a call through `x8`, and `jr ra`
/// (the same word as `ret`).
pub open spec fn std_trampoline_words() -> Seq<u32> {
    seq![MV_X8_X1, MV_X12_X2, JALR_X8, RET]
}

/// The machine code of the standard trampoline.
pub fn std_trampoline_code() -> (code: Vec<u8>)
    ensures
        code@ == words_le(std_trampoline_words()),
{
    let mut assembler = new_code_buffer(0);
    let words: [u32; 4] = [MV_X8_X1, MV_X12_X2, JALR_X8, RET];
    emit_words(&mut assembler, &words);
    assert(words@ =~= std_trampoline_words());
    match code_buffer_finalize(assembler) {
        Ok(code) => code,
        Err(_) => {
            assert(false);
            Vec::new()
        },
    }
}

/// The trampoline through which the host calls a function of signature
/// `sig`: the code of `std_trampoline_code`, without unwind information. It
/// never fails. The signature and the calling convention do not change the
/// code yet.
pub fn gen_std_trampoline_riscv64(sig: &FunctionType, calling_convention: CallingConvention) -> (r: Result<FunctionBody, CompileError>)
    ensures
        r is Ok,
        r->Ok_0 == function_body_of(words_le(std_trampoline_words())),
{
    let mut body = std_trampoline_code();
    shrink_to_fit(&mut body);
    Ok(function_body(body))
}

} // verus!
