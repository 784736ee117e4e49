[package]
name = "singlepass_riscv"
version = "0.1.0"
edition = "2021"
publish = false

[dependencies]
dynasmrt = "=3.2.1"
wasmer-types = "=6.1.0"
wasmer-compiler = { version = "=6.1.0", features = ["compiler"] }
