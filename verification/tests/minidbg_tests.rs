use minidbg::breakpoint::BreakPoint;
use minidbg::command::{parse_command, parse_hex_address, Command};
use minidbg::debugger::{Debugger, DispatchReport, SessionState};
use minidbg::word::make_trap_word;
use minidbg::HostError;

/// A process identifier that certainly names no live process, so every trace
/// primitive against it fails.
const NO_SUCH_PID: i32 = 0x7FFF_FFFF;

fn ready_debugger() -> Debugger {
    let mut d = Debugger::new(String::from("target"), NO_SUCH_PID);
    d.state = SessionState::Ready;
    d
}

// Address parsing

#[test]
fn parse_with_prefix() {
    assert_eq!(parse_hex_address("0x114c"), Ok(0x114c));
    assert_eq!(0x114c, 4428);
}

#[test]
fn parse_without_prefix() {
    assert_eq!(parse_hex_address("114c"), Ok(0x114c));
}

#[test]
fn parse_uppercase_digits() {
    assert_eq!(parse_hex_address("0xFF"), Ok(255));
    assert_eq!(parse_hex_address("AbCdEf"), Ok(0xabcdef));
}

#[test]
fn parse_rejects_non_hex() {
    assert_eq!(parse_hex_address("zz"), Err(HostError::ParseError));
    assert_eq!(parse_hex_address("0x114g"), Err(HostError::ParseError));
}

#[test]
fn parse_rejects_empty() {
    assert_eq!(parse_hex_address(""), Err(HostError::ParseError));
    assert_eq!(parse_hex_address("0x"), Err(HostError::ParseError));
}

#[test]
fn parse_full_word_and_overflow() {
    assert_eq!(parse_hex_address("ffffffffffffffff"), Ok(u64::MAX));
    assert_eq!(parse_hex_address("10000000000000000"), Err(HostError::ParseError));
}

#[test]
fn parse_zero() {
    assert_eq!(parse_hex_address("0"), Ok(0));
    assert_eq!(parse_hex_address("0x0"), Ok(0));
}

// Command grammar

#[test]
fn command_continue() {
    assert_eq!(parse_command("continue"), Ok(Command::Continue));
}

#[test]
fn command_exit() {
    assert_eq!(parse_command("exit"), Ok(Command::Exit));
}

#[test]
fn command_break_with_address() {
    assert_eq!(parse_command("break 0x1135"), Ok(Command::Break(0x1135)));
    assert_eq!(parse_command("break 1135"), Ok(Command::Break(0x1135)));
}

#[test]
fn command_break_bad_or_missing_address() {
    assert_eq!(parse_command("break zz"), Err(HostError::ParseError));
    assert_eq!(parse_command("break"), Err(HostError::ParseError));
}

#[test]
fn command_unknown() {
    assert_eq!(parse_command("frobnicate"), Ok(Command::Unknown));
    assert_eq!(parse_command(""), Ok(Command::Unknown));
    assert_eq!(parse_command("Continue"), Ok(Command::Unknown));
}

#[test]
fn command_tokens_are_space_delimited() {
    assert_eq!(parse_command("break  0x10"), Ok(Command::Break(0x10)));
    assert_eq!(parse_command("break 0x10 trailing"), Ok(Command::Break(0x10)));
    assert_eq!(parse_command("exit now"), Ok(Command::Exit));
}

// Trap-word installation (the pure half of enable/disable)

#[test]
fn trap_word_sets_lowest_byte_only() {
    let w: u64 = 0x1122_3344_5566_7788;
    let patched = make_trap_word(w);
    assert_eq!(patched & 0xFF, 0xCC);
    assert_eq!(patched & !0xFFu64, w & !0xFFu64);
    assert_eq!(patched, 0x1122_3344_5566_77CC);
}

#[test]
fn trap_word_round_trip_leaves_saved_word_intact() {
    // enable saves the original word w and writes make_trap_word(w);
    // disable writes the saved word back, restoring the memory exactly.
    let original: u64 = 0xdead_beef_0042_c355;
    let saved = original;
    let _installed = make_trap_word(original);
    assert_eq!(saved, original);
    assert_eq!(make_trap_word(original) >> 8, original >> 8);
}

#[test]
fn installed_word_of_enabled_breakpoint() {
    let bp = BreakPoint {
        pid: NO_SUCH_PID,
        address: 0x1135,
        enabled: true,
        original_instr: 0x1122_3344_5566_7788,
    };
    assert_eq!(bp.installed_word(), 0x1122_3344_5566_77CC);
}

// Breakpoint state against a process that cannot be traced

#[test]
fn new_breakpoint_starts_disabled() {
    let bp = BreakPoint::new(NO_SUCH_PID, 0x1000);
    assert_eq!(bp.pid, NO_SUCH_PID);
    assert_eq!(bp.address, 0x1000);
    assert!(!bp.enabled);
}

#[test]
fn enable_fails_without_a_traced_process() {
    let mut bp = BreakPoint::new(NO_SUCH_PID, 0x1000);
    let r = bp.enable();
    assert!(matches!(r, Err(HostError::NixError(_))));
    assert!(!bp.enabled);
    assert_eq!(bp.address, 0x1000);
}

// Registry behaviour

#[test]
fn break_replaces_entry_at_same_address() {
    let mut d = ready_debugger();
    let first = BreakPoint {
        pid: NO_SUCH_PID,
        address: 0x1000,
        enabled: true,
        original_instr: 0x11,
    };
    let second = BreakPoint {
        pid: NO_SUCH_PID,
        address: 0x1000,
        enabled: true,
        original_instr: 0x22,
    };
    d.add_breakpoint(first);
    d.add_breakpoint(second);
    assert_eq!(d.breakpoint_count(), 1);
    assert_eq!(d.breakpoint_at(0x1000), Some(second));
}

#[test]
fn breakpoints_at_distinct_addresses_coexist() {
    let mut d = ready_debugger();
    let a = BreakPoint::new(NO_SUCH_PID, 0x1000);
    let b = BreakPoint::new(NO_SUCH_PID, 0x2000);
    d.add_breakpoint(a);
    d.add_breakpoint(b);
    assert_eq!(d.breakpoint_count(), 2);
    assert_eq!(d.breakpoint_at(0x1000), Some(a));
    assert_eq!(d.breakpoint_at(0x2000), Some(b));
    assert_eq!(d.breakpoint_at(0x3000), None);
}

// Dispatch

#[test]
fn unknown_command_is_a_no_op() {
    let mut d = ready_debugger();
    let before = d.breakpoints.clone();
    let r = d.dispatch("frobnicate");
    assert_eq!(r, DispatchReport::UnknownCommand);
    assert_eq!(d.state, SessionState::Ready);
    assert_eq!(d.breakpoints, before);
}

#[test]
fn exit_terminates_the_session() {
    let mut d = ready_debugger();
    let before = d.breakpoints.clone();
    let r = d.dispatch("exit");
    assert_eq!(r, DispatchReport::Exiting);
    assert_eq!(d.state, SessionState::Terminated);
    assert_eq!(d.breakpoints, before);
}

#[test]
fn bad_address_changes_nothing() {
    let mut d = ready_debugger();
    let r = d.dispatch("break zz");
    assert_eq!(r, DispatchReport::BadAddress);
    assert_eq!(d.state, SessionState::Ready);
    assert_eq!(d.breakpoint_count(), 0);
}

#[test]
fn failed_enable_leaves_registry_unchanged() {
    let mut d = ready_debugger();
    let r = d.dispatch("break 0x1000");
    assert!(matches!(r, DispatchReport::BreakpointFailed(HostError::NixError(_))));
    assert_eq!(d.state, SessionState::Ready);
    assert_eq!(d.breakpoint_count(), 0);
    let r2 = d.dispatch("break 0x1000");
    assert!(matches!(r2, DispatchReport::BreakpointFailed(HostError::NixError(_))));
    assert_eq!(d.breakpoint_count(), 0);
}

#[test]
fn resume_failure_is_reported_and_session_survives() {
    let mut d = ready_debugger();
    let r = d.dispatch("continue");
    assert!(matches!(r, DispatchReport::ResumeFailed(HostError::NixError(_))));
    assert_eq!(d.state, SessionState::Ready);
    assert_eq!(d.breakpoint_count(), 0);
}

#[test]
fn await_initial_stop_fails_when_the_child_vanished() {
    let mut d = Debugger::new(String::from("target"), NO_SUCH_PID);
    let r = d.await_initial_stop();
    assert!(matches!(r, Err(HostError::NixError(_))));
    assert_eq!(d.state, SessionState::AwaitingInitialStop);
}

#[test]
fn new_debugger_is_empty_and_awaiting() {
    let d = Debugger::new(String::from("/bin/true"), 42);
    assert_eq!(d.prog_name, "/bin/true");
    assert_eq!(d.pid, 42);
    assert_eq!(d.state, SessionState::AwaitingInitialStop);
    assert_eq!(d.breakpoint_count(), 0);
}
