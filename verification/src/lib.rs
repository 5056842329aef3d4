//! An embeddable just-in-time code-generation layer.
//!
//! The crate exposes a typed, host-level API for constructing native
//! functions at runtime: structured control flow (branches, loops,
//! fused iterator pipelines) and calls to registered host functions are
//! composed against an explicit build context, then emitted through a
//! lower-level code-generation backend into directly callable machine
//! code.  The build context keeps a complete model of the control-flow
//! graph under construction — blocks, their parameters, their sealing
//! state and every emitted instruction — and the construction invariants
//! (each block sealed exactly once, jumps passing arguments matching the
//! target block's parameter shape, no instruction after a terminator) are
//! verified against that model.

pub mod types;
mod backend;
pub mod model;
pub mod func;
pub mod signal;
pub mod ctx;
pub mod control_flow;
pub mod while_loop;
pub mod iterator;
pub mod slice;
pub mod ffi;
pub mod datatype;
pub mod laws;
pub mod eval;
