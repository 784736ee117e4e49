use vstd::prelude::*;

verus! {

/// The integer registers of RISC-V, `x0` to `x31`.
#[derive(Copy, Clone, Debug, PartialEq, Eq, Structural, Hash)]
pub enum GPR {
    X0,
    X1,
    X2,
    X3,
    X4,
    X5,
    X6,
    X7,
    X8,
    X9,
    X10,
    X11,
    X12,
    X13,
    X14,
    X15,
    X16,
    X17,
    X18,
    X19,
    X20,
    X21,
    X22,
    X23,
    X24,
    X25,
    X26,
    X27,
    X28,
    X29,
    X30,
    X31,
}

/// The floating-point registers of RISC-V, `f0` to `f31`.
#[derive(Copy, Clone, Debug, PartialEq, Eq, Structural, Hash)]
pub enum FPR {
    F0,
    F1,
    F2,
    F3,
    F4,
    F5,
    F6,
    F7,
    F8,
    F9,
    F10,
    F11,
    F12,
    F13,
    F14,
    F15,
    F16,
    F17,
    F18,
    F19,
    F20,
    F21,
    F22,
    F23,
    F24,
    F25,
    F26,
    F27,
    F28,
    F29,
    F30,
    F31,
}

/// The number of an integer register: `n` for `xn`.
pub open spec fn gpr_index(r: GPR) -> nat {
    match r {
        GPR::X0 => 0,
        GPR::X1 => 1,
        GPR::X2 => 2,
        GPR::X3 => 3,
        GPR::X4 => 4,
        GPR::X5 => 5,
        GPR::X6 => 6,
        GPR::X7 => 7,
        GPR::X8 => 8,
        GPR::X9 => 9,
        GPR::X10 => 10,
        GPR::X11 => 11,
        GPR::X12 => 12,
        GPR::X13 => 13,
        GPR::X14 => 14,
        GPR::X15 => 15,
        GPR::X16 => 16,
        GPR::X17 => 17,
        GPR::X18 => 18,
        GPR::X19 => 19,
        GPR::X20 => 20,
        GPR::X21 => 21,
        GPR::X22 => 22,
        GPR::X23 => 23,
        GPR::X24 => 24,
        GPR::X25 => 25,
        GPR::X26 => 26,
        GPR::X27 => 27,
        GPR::X28 => 28,
        GPR::X29 => 29,
        GPR::X30 => 30,
        GPR::X31 => 31,
    }
}

/// The integer register with number `i` (`x31` for every `i` past 30).
pub open spec fn gpr_from_index(i: int) -> GPR {
    if i == 0 {
        GPR::X0
    } else if i == 1 {
        GPR::X1
    } else if i == 2 {
        GPR::X2
    } else if i == 3 {
        GPR::X3
    } else if i == 4 {
        GPR::X4
    } else if i == 5 {
        GPR::X5
    } else if i == 6 {
        GPR::X6
    } else if i == 7 {
        GPR::X7
    } else if i == 8 {
        GPR::X8
    } else if i == 9 {
        GPR::X9
    } else if i == 10 {
        GPR::X10
    } else if i == 11 {
        GPR::X11
    } else if i == 12 {
        GPR::X12
    } else if i == 13 {
        GPR::X13
    } else if i == 14 {
        GPR::X14
    } else if i == 15 {
        GPR::X15
    } else if i == 16 {
        GPR::X16
    } else if i == 17 {
        GPR::X17
    } else if i == 18 {
        GPR::X18
    } else if i == 19 {
        GPR::X19
    } else if i == 20 {
        GPR::X20
    } else if i == 21 {
        GPR::X21
    } else if i == 22 {
        GPR::X22
    } else if i == 23 {
        GPR::X23
    } else if i == 24 {
        GPR::X24
    } else if i == 25 {
        GPR::X25
    } else if i == 26 {
        GPR::X26
    } else if i == 27 {
        GPR::X27
    } else if i == 28 {
        GPR::X28
    } else if i == 29 {
        GPR::X29
    } else if i == 30 {
        GPR::X30
    } else {
        GPR::X31
    }
}

impl GPR {
    /// The register's number, as a bit position in a register set.
    pub fn into_index(&self) -> (i: usize)
        ensures
            i == gpr_index(*self),
            i < 32,
    {
        match self {
            GPR::X0 => 0,
            GPR::X1 => 1,
            GPR::X2 => 2,
            GPR::X3 => 3,
            GPR::X4 => 4,
            GPR::X5 => 5,
            GPR::X6 => 6,
            GPR::X7 => 7,
            GPR::X8 => 8,
            GPR::X9 => 9,
            GPR::X10 => 10,
            GPR::X11 => 11,
            GPR::X12 => 12,
            GPR::X13 => 13,
            GPR::X14 => 14,
            GPR::X15 => 15,
            GPR::X16 => 16,
            GPR::X17 => 17,
            GPR::X18 => 18,
            GPR::X19 => 19,
            GPR::X20 => 20,
            GPR::X21 => 21,
            GPR::X22 => 22,
            GPR::X23 => 23,
            GPR::X24 => 24,
            GPR::X25 => 25,
            GPR::X26 => 26,
            GPR::X27 => 27,
            GPR::X28 => 28,
            GPR::X29 => 29,
            GPR::X30 => 30,
            GPR::X31 => 31,
        }
    }
}

/// Every register is the register of its own number.
pub proof fn lemma_gpr_index_roundtrip(r: GPR)
    ensures
        gpr_index(r) < 32,
        gpr_from_index(gpr_index(r) as int) == r,
{
}

/// Distinct registers have distinct numbers.
pub proof fn lemma_gpr_index_injective(a: GPR, b: GPR)
    ensures
        gpr_index(a) == gpr_index(b) <==> a == b,
{
    lemma_gpr_index_roundtrip(a);
    lemma_gpr_index_roundtrip(b);
}

/// Operand sizes of the code generator.
#[derive(Copy, Clone, Debug, PartialEq, Eq, Structural)]
pub enum Size {
    S8,
    S16,
    S32,
    S64,
}

} // verus!
