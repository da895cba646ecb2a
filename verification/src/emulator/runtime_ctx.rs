//! Runtime context of a process: the instruction pointer and the X register
//! file the interpreter works in during a timeslice.

use vstd::prelude::*;
use crate::term::lterm::LTerm;
use crate::term::imm2::IMM2_SPECIAL_NIL_RAW;
use crate::emulator::code_srv::CodePtr;

verus! {

/// Number of X registers in a process's register file.
pub const NUM_REGS: usize = 64;

/// Register and instruction-pointer context of one process.
#[derive(Debug, Clone)]
pub struct Context {
    /// Instruction pointer: where execution resumes.
    pub ip: CodePtr,
    /// The X register file.
    pub regs: Vec<LTerm>,
}

impl Context {
    /// A fresh context starting at the given instruction pointer, all
    /// registers holding NIL.
    pub fn new(ip: CodePtr) -> (r: Context)
        ensures
            r.ip == ip,
            r.regs@.len() == NUM_REGS,
            forall|i: int| 0 <= i < NUM_REGS ==> (#[trigger] r.regs@[i]).value
                == IMM2_SPECIAL_NIL_RAW,
    {
        let mut regs: Vec<LTerm> = Vec::new();
        let mut i: usize = 0;
        while i < NUM_REGS
            invariant
                i <= NUM_REGS,
                regs@.len() == i,
                forall|k: int| 0 <= k < i ==> (#[trigger] regs@[k]).value == IMM2_SPECIAL_NIL_RAW,
            decreases NUM_REGS - i,
        {
            regs.push(LTerm::nil());
            i = i + 1;
        }
        Context { ip, regs }
    }
}

} // verus!
