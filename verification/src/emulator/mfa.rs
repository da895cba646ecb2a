//! Module/function/arity reference: the addressing scheme used to resolve an
//! instruction pointer through the code-loading collaborator.

use vstd::prelude::*;
use crate::rt_defs::Word;
use crate::term::lterm::LTerm;

verus! {

/// A fully-qualified function reference: module atom, function atom, arity.
#[derive(Debug, Copy, Clone, PartialEq, Eq, Structural)]
pub struct MFArity {
    pub m: LTerm,
    pub f: LTerm,
    pub arity: Word,
}

impl MFArity {
    /// Build a reference from its three parts.
    pub fn new(m: LTerm, f: LTerm, arity: Word) -> (r: MFArity)
        ensures
            r.m == m,
            r.f == f,
            r.arity == arity,
    {
        MFArity { m, f, arity }
    }
}

} // verus!
