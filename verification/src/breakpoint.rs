//! One patched location in a traced process's address space.

use vstd::prelude::*;
use crate::sys;
use crate::word::{make_trap_word, trap_word};
use crate::{HostError, HostResult};

verus! {

/// A software breakpoint: one patched location in the traced process's
/// address space.  It knows how to install and remove itself via peek and
/// poke of process memory.
#[derive(Debug, Clone, Copy, PartialEq, Eq, Structural)]
pub struct BreakPoint {
    /// Identifier of the traced process this breakpoint belongs to;
    /// immutable after creation.
    pub pid: i32,
    /// Virtual memory address of the instrumented location; immutable.
    pub address: u64,
    /// True iff the trap opcode is currently installed at `address`.
    pub enabled: bool,
    /// The original memory word read from `address` before patching.  A
    /// freshly constructed breakpoint holds a placeholder here that must
    /// not be trusted until `enable` has succeeded.
    pub original_instr: u64,
}

impl BreakPoint {
    /// A new, not yet installed breakpoint for process `pid` at `address`.
    pub fn new(pid: i32, address: u64) -> (bp: BreakPoint)
        ensures
            bp.pid == pid,
            bp.address == address,
            !bp.enabled,
            bp.original_instr == 0,
    {
        BreakPoint { pid, address, enabled: false, original_instr: 0 }
    }

    /// Installs the trap: reads the full machine word at `address`, saves it
    /// verbatim, and writes back the same word with its lowest-order byte
    /// replaced by the trap opcode.
    ///
    /// On a read failure the breakpoint is left unchanged.  On a write
    /// failure after a successful read, `original_instr` is already
    /// populated (so a later `disable` could still restore correctly) but
    /// `enabled` stays false, so the caller can retry.
    pub fn enable(&mut self) -> (r: HostResult<()>)
        ensures
            final(self).pid == old(self).pid,
            final(self).address == old(self).address,
            r is Ok ==> final(self).enabled,
            r is Err ==> final(self).enabled == old(self).enabled,
            r is Err ==> r->Err_0 is NixError,
    {
        let w: u64 = match sys::peek_word(self.pid, self.address) {
            Ok(w) => w,
            Err(e) => {
                return Err(HostError::NixError(e));
            },
        };
        self.original_instr = w;
        let patched: u64 = make_trap_word(w);
        match sys::poke_word(self.pid, self.address, patched) {
            Ok(()) => {
                self.enabled = true;
                Ok(())
            },
            Err(e) => Err(HostError::NixError(e)),
        }
    }

    /// Removes the trap: writes the saved original word back to `address`
    /// verbatim.  Well-defined only while the trap is installed, which
    /// guarantees that `original_instr` holds the word that was present
    /// immediately before the matching `enable`.
    pub fn disable(&mut self) -> (r: HostResult<()>)
        requires
            old(self).enabled,
        ensures
            final(self).pid == old(self).pid,
            final(self).address == old(self).address,
            final(self).original_instr == old(self).original_instr,
            r is Ok ==> !final(self).enabled,
            r is Err ==> *final(self) == *old(self),
            r is Err ==> r->Err_0 is NixError,
    {
        match sys::poke_word(self.pid, self.address, self.original_instr) {
            Ok(()) => {
                self.enabled = false;
                Ok(())
            },
            Err(e) => Err(HostError::NixError(e)),
        }
    }

    /// The word that `enable` installed at `address`: the saved original
    /// word with its lowest-order byte replaced by the trap opcode.
    pub fn installed_word(&self) -> (w: u64)
        requires
            self.enabled,
        ensures
            w == trap_word(self.original_instr),
    {
        make_trap_word(self.original_instr)
    }
}

} // verus!
