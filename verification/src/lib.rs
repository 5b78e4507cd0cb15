//! A register-based bytecode virtual machine with a NaN-boxed dynamic value
//! model, many cooperatively scheduled virtual threads sharing one code
//! image, pluggable per-instruction or per-block locking policies, and a
//! generational shutdown/restart lifecycle.
//!
//! The machine state (registers, per-thread stacks, the shared memory image,
//! the variable-string heap and the lifecycle coordinator) lives here as
//! plain verified data. Operations whose results are IEEE-754 doubles are
//! delegated to the embedder: a step that needs numeric work reports a
//! request and is re-run with the computed reply, so every decision the
//! machine makes about such a reply is verified for all possible replies.

pub mod archive;
pub mod block_info;
pub mod counter;
pub mod errors;
pub mod events;
pub mod executor;
pub mod instr;
pub mod js_impl;
pub mod machine;
pub mod op_codes;
pub mod runtime;
pub mod string_heap;
pub mod values;
pub mod vm_config;
pub mod wordio;
