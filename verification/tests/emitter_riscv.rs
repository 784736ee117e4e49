use singlepass_riscv::emitter_riscv::{gen_std_trampoline_riscv64, std_trampoline_code};
use singlepass_riscv::machine_riscv::MachineRiscv;
use wasmer_types::target::CallingConvention;
use wasmer_types::{FunctionType, Type};

const TRAMPOLINE: [u8; 16] = [
    0x13, 0x84, 0x00, 0x00, // mv x8, x1
    0x13, 0x06, 0x01, 0x00, // mv x12, x2
    0xe7, 0x00, 0x04, 0x00, // jalr x8
    0x67, 0x80, 0x00, 0x00, // jr ra
];

#[test]
fn trampoline_code() {
    assert_eq!(std_trampoline_code(), TRAMPOLINE.to_vec());
}

#[test]
fn gen_std_trampoline_builds_a_body_without_unwind_info() {
    let sig = FunctionType::new(vec![Type::I32, Type::I64], vec![Type::I32]);
    let body = gen_std_trampoline_riscv64(&sig, CallingConvention::SystemV).unwrap();
    assert_eq!(body.body, TRAMPOLINE.to_vec());
    assert!(body.unwind_info.is_none());
}

#[test]
fn trampoline_does_not_depend_on_the_signature() {
    let a = gen_std_trampoline_riscv64(&FunctionType::new(Vec::<Type>::new(), Vec::<Type>::new()), CallingConvention::SystemV).unwrap();
    let b = gen_std_trampoline_riscv64(&FunctionType::new(vec![Type::F64], vec![]), CallingConvention::WindowsFastcall).unwrap();
    assert_eq!(a, b);
}

#[test]
fn machine_gen_std_trampoline_is_the_same() {
    let m = MachineRiscv::new(None);
    let sig = FunctionType::new(vec![Type::I32], vec![]);
    let body = m.gen_std_trampoline(&sig, CallingConvention::SystemV).unwrap();
    assert_eq!(body.body, TRAMPOLINE.to_vec());
}
