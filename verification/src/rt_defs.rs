//! Base definitions shared by the whole runtime core: the machine word that
//! carries every tagged value, and the closed set of exception kinds.

use vstd::prelude::*;

verus! {

/// A machine word. Every tagged value is encoded in exactly one of these.
pub type Word = u64;

/// Width of a `Word` in bits.
pub const WORD_BITS: Word = 64;

/// Width of a `Word` in bytes.
pub const WORD_BYTES: Word = 8;

/// The closed set of language-level exception kinds a process can raise.
#[derive(Debug, Copy, Clone, PartialEq, Eq, Structural)]
pub enum ExceptionType {
    Exit,
    Throw,
    Error,
}

} // verus!
