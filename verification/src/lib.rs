//! RISC-V back end of a single-pass WebAssembly code generator: register
//! bookkeeping, the placement of locals and call arguments, stack alignment,
//! trap tables and the fixed code sequences that the back end emits.

pub mod riscv_decl;
pub mod emitter_riscv;
pub mod code_buffer;
pub mod wasmer;
pub mod key_order;
pub mod machine;
pub mod location;
pub mod machine_riscv;
pub mod laws;
