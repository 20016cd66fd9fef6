//! The process controller: owns the traced process's identity, the registry
//! of active breakpoints keyed by address, and the resume/wait control flow
//! of the interactive session.

use vstd::prelude::*;
use std::collections::HashMap;
use crate::breakpoint::BreakPoint;
use crate::command::{parse_command, spec_parse_command, Command};
use crate::sys::{self, WaitEvent};
use crate::{HostError, HostResult};

verus! {

broadcast use vstd::std_specs::hash::group_hash_axioms;

/// Where the interactive session stands.  `Terminated` is the only terminal
/// state; there is no transition back.
#[derive(Debug, Clone, Copy, PartialEq, Eq, Structural)]
pub enum SessionState {
    /// The traced child exists, but its first stop notification has not
    /// been awaited yet; no command may be dispatched.
    AwaitingInitialStop,
    /// Commands may be dispatched.
    Ready,
    /// `exit` was dispatched; the session loop stops.
    Terminated,
}

/// What one dispatched command produced, reported to the operator.
#[derive(Debug, Clone, PartialEq)]
pub enum DispatchReport {
    /// `continue` resumed the process, which then delivered this
    /// notification.
    Resumed(WaitEvent),
    /// `continue` could not resume the process, or the wait after the
    /// resume failed; the session is otherwise unaffected.
    ResumeFailed(HostError),
    /// `break` installed a breakpoint at this address and recorded it.
    BreakpointSet(u64),
    /// `break` parsed its address but could not install the trap; the
    /// registry is unchanged.
    BreakpointFailed(HostError),
    /// `break` got an ill-formed or missing address; nothing changed.
    BadAddress,
    /// The command name was not recognized; nothing changed.
    UnknownCommand,
    /// `exit` ended the session.
    Exiting,
}

/// The process controller for one interactive debugging session.
pub struct Debugger {
    /// Human-readable name of the debuggee: the path originally launched.
    pub prog_name: String,
    /// The OS-level identifier of the traced process; fixed for the
    /// controller's lifetime.
    pub pid: i32,
    /// The registry of active breakpoints, keyed by address.
    pub breakpoints: HashMap<u64, BreakPoint>,
    /// Where the session stands.
    pub state: SessionState,
}

impl Debugger {
    /// The controller invariant: every registered breakpoint belongs to the
    /// traced process and sits in the registry under its own address.
    pub open spec fn wf(self) -> bool {
        forall|a: u64| self.breakpoints@.contains_key(a)
            ==> (#[trigger] self.breakpoints@[a]).pid == self.pid
                && self.breakpoints@[a].address == a
    }

    /// A controller for the traced process `pid`, with an empty registry,
    /// waiting for the child's initial stop.
    pub fn new(prog_name: String, pid: i32) -> (d: Debugger)
        ensures
            d.wf(),
            d.prog_name == prog_name,
            d.pid == pid,
            d.state is AwaitingInitialStop,
            d.breakpoints@ == Map::<u64, BreakPoint>::empty(),
    {
        Debugger {
            prog_name,
            pid,
            breakpoints: HashMap::new(),
            state: SessionState::AwaitingInitialStop,
        }
    }

    /// Blocks until the freshly launched traced child delivers its first
    /// stop notification.  Called exactly once, before any command is
    /// dispatched; on success the session becomes ready.
    pub fn await_initial_stop(&mut self) -> (r: HostResult<()>)
        requires
            old(self).wf(),
            old(self).state is AwaitingInitialStop,
        ensures
            final(self).wf(),
            final(self).prog_name == old(self).prog_name,
            final(self).pid == old(self).pid,
            final(self).breakpoints@ == old(self).breakpoints@,
            r is Ok ==> final(self).state is Ready,
            r is Err ==> final(self).state == old(self).state && r->Err_0 is NixError,
    {
        match sys::wait_for_stop(self.pid) {
            Ok(_) => {
                self.state = SessionState::Ready;
                Ok(())
            },
            Err(e) => Err(HostError::NixError(e)),
        }
    }

    /// Resumes the traced process and blocks until its next stop or exit
    /// notification, which it returns.
    pub fn continue_execution(&self) -> (r: HostResult<WaitEvent>)
        ensures
            r is Err ==> r->Err_0 is NixError,
    {
        match sys::resume_process(self.pid) {
            Ok(()) => {},
            Err(e) => {
                return Err(HostError::NixError(e));
            },
        }
        match sys::wait_for_stop(self.pid) {
            Ok(ev) => Ok(ev),
            Err(e) => Err(HostError::NixError(e)),
        }
    }

    /// Records `bp` in the registry under its address, replacing any prior
    /// entry at that exact address.
    pub fn add_breakpoint(&mut self, bp: BreakPoint)
        requires
            old(self).wf(),
            bp.pid == old(self).pid,
        ensures
            final(self).wf(),
            final(self).prog_name == old(self).prog_name,
            final(self).pid == old(self).pid,
            final(self).state == old(self).state,
            final(self).breakpoints@ == old(self).breakpoints@.insert(bp.address, bp),
    {
        self.breakpoints.insert(bp.address, bp);
    }

    /// Constructs a breakpoint at `address`, installs its trap, and on
    /// success records it in the registry.  When the installation fails the
    /// registry is left unchanged, so the operator can retry.
    pub fn set_breakpoint_at_address(&mut self, address: u64) -> (r: HostResult<()>)
        requires
            old(self).wf(),
        ensures
            final(self).wf(),
            final(self).prog_name == old(self).prog_name,
            final(self).pid == old(self).pid,
            final(self).state == old(self).state,
            r is Ok ==> final(self).breakpoints@.contains_key(address)
                && final(self).breakpoints@[address].enabled
                && final(self).breakpoints@[address].address == address
                && final(self).breakpoints@[address].pid == old(self).pid
                && final(self).breakpoints@ == old(self).breakpoints@.insert(
                    address,
                    final(self).breakpoints@[address],
                ),
            r is Err ==> final(self).breakpoints@ == old(self).breakpoints@
                && r->Err_0 is NixError,
    {
        let mut bp: BreakPoint = BreakPoint::new(self.pid, address);
        match bp.enable() {
            Ok(()) => {
                self.add_breakpoint(bp);
                Ok(())
            },
            Err(e) => Err(e),
        }
    }

    /// Parses a single line of operator input and performs the command it
    /// names: `continue` resumes the process and waits, `break` installs a
    /// breakpoint, `exit` terminates the session, and anything else is
    /// reported as unknown and changes nothing.
    pub fn dispatch(&mut self, line: &str) -> (r: DispatchReport)
        requires
            old(self).wf(),
            old(self).state is Ready,
        ensures
            final(self).wf(),
            final(self).prog_name == old(self).prog_name,
            final(self).pid == old(self).pid,
            final(self).state is Terminated <==> r is Exiting,
            !(r is Exiting) ==> final(self).state is Ready,
            match spec_parse_command(line@) {
                Ok(Command::Continue) => final(self).state is Ready
                    && final(self).breakpoints@ == old(self).breakpoints@
                    && match r {
                        DispatchReport::Resumed(_) => true,
                        DispatchReport::ResumeFailed(e) => e is NixError,
                        _ => false,
                    },
                Ok(Command::Break(a)) => final(self).state is Ready
                    && match r {
                        DispatchReport::BreakpointSet(addr) => addr == a
                            && final(self).breakpoints@.contains_key(a)
                            && final(self).breakpoints@[a].enabled
                            && final(self).breakpoints@[a].address == a
                            && final(self).breakpoints@[a].pid == old(self).pid
                            && final(self).breakpoints@ == old(self).breakpoints@.insert(
                                a,
                                final(self).breakpoints@[a],
                            ),
                        DispatchReport::BreakpointFailed(e) => final(self).breakpoints@
                            == old(self).breakpoints@ && e is NixError,
                        _ => false,
                    },
                Ok(Command::Exit) => final(self).state is Terminated
                    && final(self).breakpoints@ == old(self).breakpoints@
                    && r is Exiting,
                Ok(Command::Unknown) => final(self).state is Ready
                    && final(self).breakpoints@ == old(self).breakpoints@
                    && r is UnknownCommand,
                Err(_) => final(self).state is Ready
                    && final(self).breakpoints@ == old(self).breakpoints@
                    && r is BadAddress,
            },
    {
        match parse_command(line) {
            Ok(Command::Continue) => match self.continue_execution() {
                Ok(ev) => DispatchReport::Resumed(ev),
                Err(e) => DispatchReport::ResumeFailed(e),
            },
            Ok(Command::Break(a)) => match self.set_breakpoint_at_address(a) {
                Ok(()) => DispatchReport::BreakpointSet(a),
                Err(e) => DispatchReport::BreakpointFailed(e),
            },
            Ok(Command::Exit) => {
                self.state = SessionState::Terminated;
                DispatchReport::Exiting
            },
            Ok(Command::Unknown) => DispatchReport::UnknownCommand,
            Err(_) => DispatchReport::BadAddress,
        }
    }

    /// How many breakpoints the registry holds.
    pub fn breakpoint_count(&self) -> (n: usize)
        ensures
            n == self.breakpoints@.len(),
    {
        self.breakpoints.len()
    }

    /// The registered breakpoint at `address`, if there is one.
    pub fn breakpoint_at(&self, address: u64) -> (r: Option<BreakPoint>)
        ensures
            match r {
                Some(bp) => self.breakpoints@.contains_key(address)
                    && bp == self.breakpoints@[address],
                None => !self.breakpoints@.contains_key(address),
            },
    {
        match self.breakpoints.get(&address) {
            Some(bp) => Some(*bp),
            None => None,
        }
    }
}

/// Law: recording a breakpoint twice at one address leaves exactly one
/// registry entry for that address, holding the later breakpoint; no other
/// address is affected.
pub proof fn lemma_break_replaces(
    m: Map<u64, BreakPoint>,
    a: u64,
    bp1: BreakPoint,
    bp2: BreakPoint,
)
    ensures
        m.insert(a, bp1).insert(a, bp2) == m.insert(a, bp2),
        m.insert(a, bp1).insert(a, bp2).dom() == m.dom().insert(a),
{
    assert(m.insert(a, bp1).insert(a, bp2) =~= m.insert(a, bp2));
    assert(m.insert(a, bp1).insert(a, bp2).dom() =~= m.dom().insert(a));
}

} // verus!
