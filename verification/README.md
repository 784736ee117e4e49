# singlepass_riscv

The RISC-V back end of a single-pass WebAssembly code generator, verified
with Verus.

- `src/riscv_decl.rs`: the RISC-V registers and operand sizes.
- `src/location.rs`: where a value lives.
- `src/code_buffer.rs`: the `dynasmrt` code buffer, with the trusted
  wrappers around it and the byte layout of instruction words.
- `src/wasmer.rs`: the `wasmer` types that the back end hands on, and the
  trusted wrappers around its calls into `wasmer`.
- `src/machine.rs`, `src/key_order.rs`: code offsets, register indices, trap
  tables and their listing in offset order.
- `src/machine_riscv.rs`: the RISC-V machine, its register bookkeeping,
  locals, call arguments, stack alignment and the code it emits.
- `src/emitter_riscv.rs`: the emitter trait, branch conditions and the
  standard trampoline.
- `src/laws.rs`: properties that hold across operations.
- `app/lib.rs`: conversions to the record types of `wasmer` and `dynasmrt`.
