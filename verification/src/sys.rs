//! Narrow, explicitly fallible wrappers around the OS trace primitives.
//!
//! Every interaction with the traced process's memory and execution state
//! goes through one of the functions here.  What each call returns depends
//! on the traced process and on the OS, so the wrappers promise nothing
//! about the values that come back; the verified callers state what holds
//! of every outcome.  Failures carry the raw OS error number.

use vstd::prelude::*;
use nix::sys::ptrace;
use nix::sys::wait::{waitpid, WaitStatus};
use nix::unistd::Pid;

verus! {

/// A stop-or-exit notification from the traced process, reduced to plain
/// values.
#[derive(Debug, Clone, Copy, PartialEq, Eq, Structural)]
pub enum WaitEvent {
    /// The process exited normally with the given status code.
    Exited { code: i32 },
    /// The process was killed by the given signal.
    Signaled { signal: i32, core_dumped: bool },
    /// The process is alive and stopped by the given signal; a breakpoint
    /// trap reports the trap signal here.
    Stopped { signal: i32 },
    /// Any other notification (ptrace event, syscall stop, resume).
    Other,
}

/// Relies on nix::sys::ptrace::read (PTRACE_PEEKDATA): returns the machine
/// word at `addr` in the memory of the stopped traced process `pid`, or the
/// raw OS error number when the access fails.
#[verifier::external_body]
pub(crate) fn peek_word(pid: i32, addr: u64) -> (r: Result<u64, i32>) {
    match ptrace::read(Pid::from_raw(pid), (addr as usize) as _) {
        Ok(w) => Ok(w as u64),
        Err(e) => Err(e as i32),
    }
}

/// Relies on nix::sys::ptrace::write (PTRACE_POKEDATA): stores `word` at
/// `addr` in the memory of the stopped traced process `pid`, or returns the
/// raw OS error number when the access fails.
#[verifier::external_body]
pub(crate) fn poke_word(pid: i32, addr: u64, word: u64) -> (r: Result<(), i32>) {
    match ptrace::write(Pid::from_raw(pid), (addr as usize) as _, word as i64) {
        Ok(()) => Ok(()),
        Err(e) => Err(e as i32),
    }
}

/// Relies on nix::sys::ptrace::cont (PTRACE_CONT): resumes the stopped
/// traced process `pid` without delivering a signal, or returns the raw OS
/// error number on failure.
#[verifier::external_body]
pub(crate) fn resume_process(pid: i32) -> (r: Result<(), i32>) {
    match ptrace::cont(Pid::from_raw(pid), Option::<nix::sys::signal::Signal>::None) {
        Ok(()) => Ok(()),
        Err(e) => Err(e as i32),
    }
}

/// Relies on nix::sys::wait::waitpid: blocks until the traced process `pid`
/// delivers its next stop or exit notification, converting each variant of
/// the reported status to plain values, or returns the raw OS error number
/// when the wait itself fails.
#[verifier::external_body]
pub(crate) fn wait_for_stop(pid: i32) -> (r: Result<WaitEvent, i32>) {
    match waitpid(Pid::from_raw(pid), None) {
        Ok(WaitStatus::Exited(_, code)) => Ok(WaitEvent::Exited { code }),
        Ok(WaitStatus::Signaled(_, sig, core)) => Ok(WaitEvent::Signaled {
            signal: sig as i32,
            core_dumped: core,
        }),
        Ok(WaitStatus::Stopped(_, sig)) => Ok(WaitEvent::Stopped { signal: sig as i32 }),
        Ok(_) => Ok(WaitEvent::Other),
        Err(e) => Err(e as i32),
    }
}

} // verus!
