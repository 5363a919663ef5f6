//! Argument marshaling and invocation harness for natively compiled guest
//! functions.
//!
//! A dynamically typed interpreter holds loosely typed, variable-arity values;
//! a compiled function expects a fixed arity and a fixed machine-level
//! representation for every argument. This crate validates tagged values
//! against a per-function signature before any native entry point runs:
//! either in bulk ([`CompiledFunction::invoke`]) or incrementally
//! ([`ArgsBuilder`]), both funneling into the same trampoline.

pub mod abi;
pub mod args;
pub mod function;
pub mod signature;

pub use abi::AbiType;
pub use abi::AbiValue;
pub use abi::JitArgumentError;
pub use args::Args;
pub use args::ArgsBuilder;
pub use function::CompiledFunction;
pub use function::NativeEntry;
pub use signature::FunctionSignature;
