[package]
name = "llvm_backend"
version = "0.1.0"
edition = "2021"
publish = false

[dependencies]
enumset = "=1.1.15"
inkwell = { version = "=0.11.0", default-features = false, features = ["llvm14-0-prefer-dynamic", "target-x86", "target-aarch64"] }
itertools = "=0.15.0"
target-lexicon = "=0.11.2"
wasmer-compiler = { version = "=1.0.2", features = ["translator"] }
wasmer-runtime-core = "=0.17.1"
wasmer-types = "=1.0.2"
