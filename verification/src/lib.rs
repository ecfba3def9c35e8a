//! Backend configuration and ABI trampoline planning for an LLVM-based
//! WebAssembly compiler.
//!
//! The crate has two halves. The first describes *what to compile with*: a
//! target descriptor, a feature set and the [`LLVMConfig`] that turns them into
//! a target machine. The second plans, for every function signature of a
//! module, the trampoline that moves values between the generic slot buffers
//! and the callee's native calling convention.

pub mod types;
pub mod slots;
pub mod abi;
pub mod buffer;
pub mod naming;
pub mod trampolines;
pub mod features;
pub mod target;
pub mod machine;
pub mod config;

pub use crate::config::{LLVMCompiler, LLVMConfig};
pub use crate::features::{CpuFeatures, Features};
pub use crate::machine::{MachineRequest, TargetError};
pub use crate::target::Target;
pub use crate::trampolines::{generate_trampoline, generate_trampolines, type_to_llvm, Trampoline};
pub use crate::types::{FuncSig, Type, Value};
