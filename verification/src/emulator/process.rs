//! The process: an independently scheduled unit owning one heap arena, one
//! register/instruction-pointer context, its scheduling metadata, and an
//! error slot that moves one way within a timeslice, from no error to a
//! recorded exception.

use vstd::prelude::*;
use vstd::string::StringExecFns;
use crate::rt_defs::Word;
use crate::rt_defs::ExceptionType;
use crate::decimal::spec_dec;
use crate::decimal::dec_str;
use crate::fail::Hopefully;
use crate::term::lterm::LTerm;
use crate::term::imm2::IMM2_SPECIAL_NIL_RAW;
use crate::term::imm2::IMM2_SPECIAL_NONVALUE_RAW;
use crate::emulator::code_srv::CodeLoader;
use crate::emulator::code_srv::CodePtr;
use crate::emulator::heap::DEFAULT_PROC_HEAP;
use crate::emulator::heap::Heap;
use crate::emulator::mfa::MFArity;
use crate::emulator::runtime_ctx::Context;
use crate::emulator::runtime_ctx::NUM_REGS;
use crate::emulator::scheduler::Prio;
use crate::emulator::scheduler::Queue;
use crate::emulator::scheduler::SliceResult;

verus! {

/// The error slot of a process: no error, or one recorded exception with its
/// kind and reason term.
#[derive(Debug, Copy, Clone, PartialEq, Eq, Structural)]
pub enum ProcessError {
    NoError,
    Exception(ExceptionType, LTerm),
}

/// Textual rendering of an error slot: `exit(reason)`, `throw(reason)` or
/// `error(reason)`, the reason as its raw word in decimal; this exact shape
/// is relied on by tracing collaborators.
pub open spec fn spec_process_error_str(e: ProcessError) -> Seq<char> {
    match e {
        ProcessError::NoError => seq!['N', 'o', 'E', 'r', 'r', 'o', 'r'],
        ProcessError::Exception(ExceptionType::Exit, rsn) => seq!['e', 'x', 'i', 't', '(']
            + spec_dec(rsn.value as nat) + seq![')'],
        ProcessError::Exception(ExceptionType::Throw, rsn) => seq!['t', 'h', 'r', 'o', 'w', '(']
            + spec_dec(rsn.value as nat) + seq![')'],
        ProcessError::Exception(ExceptionType::Error, rsn) => seq!['e', 'r', 'r', 'o', 'r', '(']
            + spec_dec(rsn.value as nat) + seq![')'],
    }
}

impl ProcessError {
    /// Render the error slot as text.
    pub fn fmt_str(&self) -> (r: String)
        ensures
            r@ == spec_process_error_str(*self),
    {
        match *self {
            ProcessError::NoError => {
                let s = String::from_str("NoError");
                proof {
                    reveal_strlit("NoError");
                    assert(s@ =~= seq!['N', 'o', 'E', 'r', 'r', 'o', 'r']);
                }
                s
            },
            ProcessError::Exception(exc_type, exc_reason) => {
                let mut s = match exc_type {
                    ExceptionType::Exit => String::from_str("exit("),
                    ExceptionType::Throw => String::from_str("throw("),
                    ExceptionType::Error => String::from_str("error("),
                };
                let dec = dec_str(exc_reason.value);
                s.append(dec.as_str());
                s.append(")");
                proof {
                    reveal_strlit("exit(");
                    reveal_strlit("throw(");
                    reveal_strlit("error(");
                    reveal_strlit(")");
                    assert("exit("@ =~= seq!['e', 'x', 'i', 't', '(']);
                    assert("throw("@ =~= seq!['t', 'h', 'r', 'o', 'w', '(']);
                    assert("error("@ =~= seq!['e', 'r', 'r', 'o', 'r', '(']);
                    assert(")"@ =~= seq![')']);
                    assert(s@ =~= spec_process_error_str(*self));
                }
                s
            },
        }
    }
}

/// An independently scheduled computing unit: one heap, one register context,
/// scheduling metadata, and the error slot.
#[derive(Debug)]
pub struct Process {
    pub pid: LTerm,

    /// Scheduling priority (selects the runqueue when this process is
    /// scheduled).
    pub prio: Prio,
    /// Current scheduler queue where this process is registered.
    pub current_queue: Queue,

    /// Runtime context with registers, instruction pointer etc.
    pub context: Context,
    /// How many X registers in the context are currently used.
    pub live: Word,

    pub heap: Heap,

    /// Record result of last scheduled timeslice for this process (updated by
    /// the VM loop).
    pub timeslice_result: SliceResult,
    pub error: ProcessError,
}

impl Process {
    /// What every field of a just-created process holds, apart from where its
    /// instruction pointer came from: given pid and priority, no queue, no
    /// timeslice result, a fresh default-sized heap, all registers NIL, zero
    /// live registers, and an empty error slot.
    pub open spec fn spec_is_fresh(self, pid: LTerm, prio: Prio) -> bool {
        self.pid == pid && self.prio == prio && self.current_queue == Queue::NoQueue
            && self.timeslice_result == SliceResult::NotRun && self.live == 0 && self.error
            == ProcessError::NoError && self.heap.wf() && self.heap.capacity == DEFAULT_PROC_HEAP
            && self.heap.used == 0 && self.heap.objects@.len() == 0 && self.context.regs@.len()
            == NUM_REGS && (forall|i: int| 0 <= i < NUM_REGS ==> (#[trigger]
        self.context.regs@[i]).value == IMM2_SPECIAL_NIL_RAW)
    }

    /// Build a process around an already-attempted code lookup: a successful
    /// lookup yields a fresh process starting at the resolved instruction
    /// pointer, and a failed lookup is propagated unchanged, producing no
    /// process.
    pub fn new_with_ip(pid: LTerm, parent_pid: LTerm, prio: Prio, lookup: Hopefully<CodePtr>) -> (r:
        Hopefully<Process>)
        requires
            pid.spec_is_local_pid(),
            parent_pid.spec_is_local_pid() || parent_pid.spec_is_nil(),
        ensures
            match r {
                Ok(p) => lookup is Ok && p.spec_is_fresh(pid, prio) && p.context.ip
                    == lookup->Ok_0,
                Err(e) => lookup == Err::<CodePtr, _>(e),
            },
    {
        match lookup {
            Ok(ip) => {
                let p = Process {
                    pid,
                    prio,
                    current_queue: Queue::NoQueue,
                    timeslice_result: SliceResult::NotRun,
                    heap: Heap::new(DEFAULT_PROC_HEAP),
                    context: Context::new(ip),
                    live: 0,
                    error: ProcessError::NoError,
                };
                Ok(p)
            },
            Err(e) => Err(e),
        }
    }

    /// Create a process. Call this only from the VM; the new process must be
    /// immediately registered in the process registry. The pid must be a
    /// genuine local pid and the parent either a local pid or NIL. The
    /// starting instruction pointer is resolved through the code loader;
    /// every successful outcome is a fresh process, and a loader failure is
    /// propagated unchanged.
    pub fn new<L: CodeLoader>(
        pid: LTerm,
        parent_pid: LTerm,
        mfarity: &MFArity,
        prio: Prio,
        code_server: &mut L,
    ) -> (r: Hopefully<Process>)
        requires
            pid.spec_is_local_pid(),
            parent_pid.spec_is_local_pid() || parent_pid.spec_is_nil(),
        ensures
            r matches Ok(p) ==> p.spec_is_fresh(pid, prio),
    {
        // Process must start with some code location
        let lookup = code_server.lookup_and_load(mfarity);
        Process::new_with_ip(pid, parent_pid, prio, lookup)
    }

    /// Returns true if there was an error or exception during the last
    /// timeslice: exactly when the error slot is not empty.
    pub fn is_failed(&self) -> (r: bool)
        ensures
            r == !(self.error is NoError),
    {
        self.error != ProcessError::NoError
    }

    /// Relocate the instruction pointer to an already-resolved location: a
    /// successful lookup moves only the instruction pointer, leaving heap and
    /// registers untouched; a failed lookup is propagated unchanged and the
    /// process is left as it was.
    pub fn jump_to(&mut self, lookup: Hopefully<CodePtr>) -> (r: Hopefully<()>)
        ensures
            match lookup {
                Ok(ip) => r is Ok && *final(self) == (Process {
                    context: (Context { ip, ..old(self).context }),
                    ..*old(self)
                }),
                Err(e) => r == Err::<(), _>(e) && *final(self) == *old(self),
            },
    {
        match lookup {
            Ok(ip) => {
                self.context.ip = ip;
                Ok(())
            },
            Err(e) => Err(e),
        }
    }

    /// Relocate the instruction pointer to a newly resolved location (used
    /// for tail-call-style control transfer). Whatever the loader answers,
    /// the heap, registers and every other field keep their values; on loader
    /// failure the failure is returned and the process is wholly unchanged.
    pub fn jump<L: CodeLoader>(&mut self, mfarity: &MFArity, code_server: &mut L) -> (r: Hopefully<
        (),
    >)
        ensures
            final(self).pid == old(self).pid,
            final(self).prio == old(self).prio,
            final(self).current_queue == old(self).current_queue,
            final(self).live == old(self).live,
            final(self).heap == old(self).heap,
            final(self).timeslice_result == old(self).timeslice_result,
            final(self).error == old(self).error,
            final(self).context.regs == old(self).context.regs,
            r is Err ==> *final(self) == *old(self),
    {
        let lookup = code_server.lookup_and_load(mfarity);
        self.jump_to(lookup)
    }

    /// Record an exception in the error slot (overwriting any prior state)
    /// and hand back the non-value sentinel, so a caller expecting a term
    /// naturally observes the failure while the detail stays readable in the
    /// slot.
    pub fn exception(&mut self, exc: ExceptionType, rsn: LTerm) -> (r: LTerm)
        ensures
            *final(self) == (Process {
                error: ProcessError::Exception(exc, rsn),
                ..*old(self)
            }),
            r.value == IMM2_SPECIAL_NONVALUE_RAW,
    {
        self.set_error(ProcessError::Exception(exc, rsn))
    }

    /// Sets error state from an opcode or a BIF. The VM will hopefully check
    /// this immediately and finish the process or catch the error.
    fn set_error(&mut self, e: ProcessError) -> (r: LTerm)
        ensures
            *final(self) == (Process { error: e, ..*old(self) }),
            r.value == IMM2_SPECIAL_NONVALUE_RAW,
    {
        self.error = e;
        LTerm::non_value()
    }
}

} // verus!
