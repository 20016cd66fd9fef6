//! A minimal interactive debugger library for native processes on a
//! POSIX-like OS: software-breakpoint management and the session control
//! logic for a traced child process.
//!
//! The library owns the logic: the word-patching rules for software traps,
//! the command grammar, the breakpoint registry and the session state
//! machine.  The trace primitives of the OS (peek, poke, resume, wait) sit
//! behind narrow fallible wrappers; process launch and the line-reading
//! shell live outside the library.

use vstd::prelude::*;

pub mod breakpoint;
pub mod command;
pub mod debugger;
pub mod sys;
pub mod word;

verus! {

/// The closed failure taxonomy of the tracer.
#[derive(Debug, Clone, PartialEq)]
pub enum HostError {
    /// The named target could not be resolved or executed.
    ProcessNotFound(String),
    /// A trace, wait or memory-access primitive of the OS failed;
    /// carries the raw OS error number.
    NixError(i32),
    /// Operator-supplied address text is not valid hexadecimal, is empty,
    /// or does not fit in a machine word.
    ParseError,
}

pub type HostResult<T> = Result<T, HostError>;

} // verus!
