//! Recoverable failure conditions of the runtime core. These propagate as
//! explicit results to the external scheduler or interpreter, which decides
//! whether to retry, collect garbage, or surface the failure.

use vstd::prelude::*;

verus! {

/// The closed set of recoverable failures that core operations can report.
#[derive(Debug, Copy, Clone, PartialEq, Eq, Structural)]
pub enum RtErr {
    /// The code loader could not resolve a module/function/arity reference.
    CodeNotFound,
    /// The heap arena cannot satisfy an allocation request; the caller must
    /// trigger a collection cycle or raise an out-of-memory exception.
    HeapIsFull,
    /// A heap object downcast found another kind's class descriptor in the
    /// object's header.
    HeapObjClassMismatch,
}

/// Outcome of a fallible runtime core operation.
pub type Hopefully<T> = Result<T, RtErr>;

} // verus!
