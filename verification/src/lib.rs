//! Build-time validator and glue generator for sandboxed smart-contract
//! modules.
//!
//! Given a source unit that carries an implementation block for a contract
//! type, the library extracts the block's methods, checks every method
//! signature against the host runtime's fixed calling convention, and emits
//! the singleton-lifecycle block plus one externally callable trampoline per
//! regular method.

pub mod bridge;
pub mod emit;
pub mod extract;
pub mod model;
pub mod pipeline;
pub mod validate;
