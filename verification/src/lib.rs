//! Execution core of an actor-style language runtime: the tagged-word value
//! encoding, per-process heap arena with header-prefixed heap objects, and the
//! process record with its scheduling metadata and error state.

pub mod decimal;
pub mod emulator;
pub mod fail;
pub mod rt_defs;
pub mod term;
