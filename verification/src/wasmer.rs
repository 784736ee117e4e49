//! The types of `wasmer-types` and `wasmer-compiler` that the back end hands
//! on, and the calls into those crates that it makes.

use vstd::prelude::*;
use dynasmrt::DynasmError;
use wasmer_compiler::types::function::FunctionBody;
use wasmer_compiler::wasmparser::ValType;
use wasmer_types::target::{CallingConvention, CpuFeature, Target};
use wasmer_types::{CompileError, FunctionType, TrapCode};

verus! {

#[verifier::external_type_specification]
#[verifier::external_body]
pub struct ExTarget(Target);

#[verifier::external_type_specification]
#[verifier::external_body]
pub struct ExCpuFeature(CpuFeature);

#[verifier::external_type_specification]
#[verifier::external_body]
pub struct ExCompileError(CompileError);

#[verifier::external_type_specification]
#[verifier::external_body]
pub struct ExTrapCode(TrapCode);

#[verifier::external_type_specification]
#[verifier::external_body]
pub struct ExCallingConvention(CallingConvention);

#[verifier::external_type_specification]
#[verifier::external_body]
pub struct ExFunctionType(FunctionType);

#[verifier::external_type_specification]
#[verifier::external_body]
pub struct ExFunctionBody(FunctionBody);

#[verifier::external_type_specification]
#[verifier::external_body]
pub struct ExValType(ValType);

/// Whether the CPU features stored in the target include NEON.
pub uninterp spec fn target_has_neon_of(t: Target) -> bool;

/// `Target::cpu_features` followed by `EnumSet::contains` of
/// `CpuFeature::NEON`: whether the feature set stored in the target holds
/// NEON, which depends on the target alone.
#[verifier::external_body]
pub(crate) fn target_has_neon(t: &Target) -> (r: bool)
    ensures
        r == target_has_neon_of(*t),
{
    t.cpu_features().contains(CpuFeature::NEON)
}

/// `CompileError::Codegen` around the error's `Display` text. Nothing is
/// stated of the error made.
#[verifier::external_body]
pub(crate) fn codegen_error(err: DynasmError) -> CompileError {
    CompileError::Codegen(err.to_string())
}

/// The `FunctionBody` of `wasmer-compiler` with the given bytes and no
/// unwind information.
pub uninterp spec fn function_body_of(code: Seq<u8>) -> FunctionBody;

/// A `FunctionBody` of `wasmer-compiler` with the given bytes and no unwind
/// information: a struct literal, so it is the same for the same bytes.
#[verifier::external_body]
pub(crate) fn function_body(body: Vec<u8>) -> (r: FunctionBody)
    ensures
        r == function_body_of(body@),
{
    FunctionBody { body, unwind_info: None }
}

/// `Vec::shrink_to_fit`: gives spare capacity back; the elements stay.
#[verifier::external_body]
pub(crate) fn shrink_to_fit(v: &mut Vec<u8>)
    ensures
        final(v)@ == old(v)@,
{
    v.shrink_to_fit()
}

} // verus!
