//! The interface this core consumes from the code-loading collaborator: it
//! resolves a module/function/arity reference to an instruction pointer, or
//! reports that the reference cannot be loaded.

use vstd::prelude::*;
use crate::rt_defs::Word;
use crate::fail::Hopefully;
use crate::emulator::mfa::MFArity;

verus! {

/// A position in the loaded-code area: where execution of a resolved function
/// begins.
#[derive(Debug, Copy, Clone, PartialEq, Eq, Structural)]
pub struct CodePtr {
    pub offset: Word,
}

/// The code-loading collaborator. Resolution must be deterministic for a
/// given fully-qualified reference during a process's lifetime, or `jump` and
/// process creation may resolve to stale code; nothing more is assumed of it
/// here, and every caller in this core states what it does with either
/// outcome.
pub trait CodeLoader {
    /// Resolve a module/function/arity reference to an instruction pointer,
    /// loading code if needed.
    fn lookup_and_load(&mut self, mfa: &MFArity) -> Hopefully<CodePtr>;
}

} // verus!
