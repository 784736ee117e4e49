use vstd::prelude::*;
use crate::riscv_decl::{FPR, GPR};

verus! {

/// Where a value lives: an integer register, a floating-point register, or
/// memory at a signed offset from a base register.
#[derive(Copy, Clone, Debug, PartialEq, Eq, Structural)]
pub enum Location {
    GPR(GPR),
    SIMD(FPR),
    Memory(GPR, i32),
}

} // verus!
