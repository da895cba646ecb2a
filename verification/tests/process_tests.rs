//! Tests of the process record: creation through the code loader, jumps,
//! exception flow and the error slot's textual rendering.

use erlvm::emulator::code_srv::{CodeLoader, CodePtr};
use erlvm::emulator::mfa::MFArity;
use erlvm::emulator::process::{Process, ProcessError};
use erlvm::emulator::scheduler::{Prio, Queue, SliceResult};
use erlvm::fail::{Hopefully, RtErr};
use erlvm::rt_defs::ExceptionType;
use erlvm::term::lterm::LTerm;

/// A loader that resolves every reference to one fixed location.
struct FixedLoader {
    ip: CodePtr,
}

impl CodeLoader for FixedLoader {
    fn lookup_and_load(&mut self, _mfa: &MFArity) -> Hopefully<CodePtr> {
        Ok(self.ip)
    }
}

/// A loader that fails every lookup.
struct FailingLoader;

impl CodeLoader for FailingLoader {
    fn lookup_and_load(&mut self, _mfa: &MFArity) -> Hopefully<CodePtr> {
        Err(RtErr::CodeNotFound)
    }
}

fn start_mfa() -> MFArity {
    MFArity::new(LTerm::make_atom(1), LTerm::make_atom(2), 0)
}

fn fresh_process() -> Process {
    let mut loader = FixedLoader { ip: CodePtr { offset: 42 } };
    Process::new(LTerm::make_local_pid(1), LTerm::nil(), &start_mfa(), Prio::Normal, &mut loader)
        .unwrap()
}

#[test]
fn create_with_resolving_loader() {
    let pid = LTerm::make_local_pid(1);
    let p = fresh_process();
    assert!(!p.is_failed());
    assert_eq!(p.live, 0);
    assert_eq!(p.error, ProcessError::NoError);
    assert_eq!(p.pid, pid);
    assert_eq!(p.prio, Prio::Normal);
    assert_eq!(p.current_queue, Queue::NoQueue);
    assert_eq!(p.timeslice_result, SliceResult::NotRun);
    assert_eq!(p.context.ip, CodePtr { offset: 42 });
    assert_eq!(p.heap.used, 0);
    assert!(p.context.regs.iter().all(|r| r.is_nil()));
}

#[test]
fn create_with_failing_loader() {
    let mut loader = FailingLoader;
    let r = Process::new(
        LTerm::make_local_pid(1),
        LTerm::nil(),
        &start_mfa(),
        Prio::Normal,
        &mut loader,
    );
    match r {
        Ok(_) => panic!("no process may come out of a failed lookup"),
        Err(e) => assert_eq!(e, RtErr::CodeNotFound),
    }
}

#[test]
fn jump_moves_only_the_instruction_pointer() {
    let mut p = fresh_process();
    let mut loader = FixedLoader { ip: CodePtr { offset: 99 } };
    assert_eq!(p.jump(&start_mfa(), &mut loader), Ok(()));
    assert_eq!(p.context.ip, CodePtr { offset: 99 });
    assert_eq!(p.live, 0);
    assert_eq!(p.error, ProcessError::NoError);
}

#[test]
fn jump_with_failing_loader_changes_nothing() {
    let mut p = fresh_process();
    let mut loader = FailingLoader;
    assert_eq!(p.jump(&start_mfa(), &mut loader), Err(RtErr::CodeNotFound));
    assert_eq!(p.context.ip, CodePtr { offset: 42 });
    assert!(!p.is_failed());
}

#[test]
fn exception_flow() {
    let mut p = fresh_process();
    assert!(!p.is_failed());
    let reason = LTerm::make_small(7);
    let r = p.exception(ExceptionType::Error, reason);
    assert!(r.is_non_value());
    assert_eq!(r, LTerm::non_value());
    // The sentinel differs from every legitimately encodable value around.
    assert_ne!(r, reason);
    assert_ne!(r, p.pid);
    assert_ne!(r, LTerm::nil());
    assert!(p.is_failed());
    assert_eq!(p.error, ProcessError::Exception(ExceptionType::Error, reason));
}

#[test]
fn exception_overwrites_prior_state() {
    let mut p = fresh_process();
    p.exception(ExceptionType::Throw, LTerm::make_small(1));
    p.exception(ExceptionType::Exit, LTerm::make_small(2));
    assert_eq!(p.error, ProcessError::Exception(ExceptionType::Exit, LTerm::make_small(2)));
    assert!(p.is_failed());
}

#[test]
fn error_slot_rendering() {
    assert_eq!(ProcessError::NoError.fmt_str(), "NoError");
    // make_small(7) composes the word 0x7F, 127 in decimal.
    let reason = LTerm::make_small(7);
    assert_eq!(reason.value, 127);
    let exit = ProcessError::Exception(ExceptionType::Exit, reason);
    assert_eq!(exit.fmt_str(), "exit(127)");
    let throw = ProcessError::Exception(ExceptionType::Throw, reason);
    assert_eq!(throw.fmt_str(), "throw(127)");
    let error = ProcessError::Exception(ExceptionType::Error, reason);
    assert_eq!(error.fmt_str(), "error(127)");
}
