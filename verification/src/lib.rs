//! A bytecode virtual machine for a small SSA-style tensor-program language.
//!
//! A program is a sequence of modules; each module is a sequence of
//! instructions operating on tensors held in a numbered slot table.  The
//! machine decodes a flat byte stream, maintains per-slot readiness signals
//! that turn the sequential text into a dataflow schedule, and hands the
//! numeric kernels to an executor backend through a narrow port.

pub mod assembler;
pub mod base;
pub mod codec;
pub mod demos;
pub mod executors;
pub mod instruction;
pub mod laws;
pub mod slots;
pub mod tensors;
pub mod vm;

pub use base::ElementType;
pub use base::RuntimeStatusError;
