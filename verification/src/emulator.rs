//! The emulator side of the core: the heap arena a process owns, and the
//! process record with its scheduling metadata and error state.

pub mod code_srv;
pub mod heap;
pub mod mfa;
pub mod process;
pub mod runtime_ctx;
pub mod scheduler;
