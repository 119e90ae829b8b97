use deet::debugger::{BreakReport, ContinueReport, Debugger, StopReport};
use deet::inferior::Status;
use deet::symbols::{Location, SymbolTable};

/// A target with `main` at 0x1000..0x1100 (line 10) and `foo` at
/// 0x1100..0x1200 (line 7), both in t.c.
fn make_symbols() -> SymbolTable {
    let mut symbols = SymbolTable::new();
    symbols.add_function(String::from("main"), String::from("t.c"), 0x1000, 0x1100);
    symbols.add_function(String::from("foo"), String::from("t.c"), 0x1100, 0x1200);
    symbols.add_line(String::from("t.c"), 10, 0x1000, 0x1010);
    symbols.add_line(String::from("t.c"), 7, 0x1100, 0x1108);
    symbols
}

#[test]
fn test_break_raw_address() {
    let mut dbg = Debugger::new(make_symbols());
    let r = dbg.cmd_break("*0x1100");
    assert_eq!(r, BreakReport::Placed { id: 1, addr: 0x1100 });
    assert_eq!(dbg.breakpoints().len(), 1);
}

#[test]
fn test_break_twice_same_id() {
    let mut dbg = Debugger::new(make_symbols());
    let first = dbg.cmd_break("*0x1100");
    assert_eq!(first, BreakReport::Placed { id: 1, addr: 0x1100 });
    // a different spelling resolving to the same address
    let second = dbg.cmd_break("*1100");
    assert_eq!(second, BreakReport::Placed { id: 1, addr: 0x1100 });
    // so does the function name
    let third = dbg.cmd_break("foo");
    assert_eq!(third, BreakReport::Placed { id: 1, addr: 0x1100 });
    assert_eq!(dbg.breakpoints().len(), 1);
}

#[test]
fn test_break_by_line_and_function() {
    let mut dbg = Debugger::new(make_symbols());
    assert_eq!(dbg.cmd_break("10"), BreakReport::Placed { id: 1, addr: 0x1000 });
    assert_eq!(dbg.cmd_break("foo"), BreakReport::Placed { id: 2, addr: 0x1100 });
    assert_eq!(dbg.breakpoints().len(), 2);
    assert_eq!(dbg.breakpoints().get(0).addr(), 0x1000);
    assert_eq!(dbg.breakpoints().get(1).addr(), 0x1100);
    assert_eq!(dbg.breakpoints().get(0).id(), 1);
    assert_eq!(dbg.breakpoints().get(1).id(), 2);
}

#[test]
fn test_break_unresolved_line_leaves_table_empty() {
    let mut dbg = Debugger::new(make_symbols());
    let r = dbg.cmd_break("42");
    assert_eq!(r, BreakReport::UnresolvedLine(42));
    assert_eq!(dbg.breakpoints().len(), 0);
}

#[test]
fn test_break_unresolved_function() {
    let mut dbg = Debugger::new(make_symbols());
    let r = dbg.cmd_break("bar");
    assert_eq!(r, BreakReport::UnresolvedFunction(String::from("bar")));
    assert_eq!(dbg.breakpoints().len(), 0);
}

#[test]
fn test_break_malformed_address() {
    let mut dbg = Debugger::new(make_symbols());
    let r = dbg.cmd_break("*zz");
    assert_eq!(r, BreakReport::MalformedAddress);
    assert_eq!(dbg.breakpoints().len(), 0);
}

#[test]
fn test_break_star_without_digits_is_malformed() {
    let mut dbg = Debugger::new(make_symbols());
    assert_eq!(dbg.cmd_break("*"), BreakReport::MalformedAddress);
    assert_eq!(dbg.cmd_break("*0x"), BreakReport::MalformedAddress);
    assert_eq!(dbg.breakpoints().len(), 0);
}

#[test]
fn test_exit_clears_process_then_continue_reports_not_running() {
    let mut dbg = Debugger::new(make_symbols());
    let r = dbg.handle_status(Status::Exited(0));
    assert_eq!(r, StopReport::Exited(0));
    assert!(!dbg.is_running());
    assert_eq!(dbg.cmd_continue(), ContinueReport::NotRunning);
}

#[test]
fn test_signal_exit_clears_process() {
    let mut dbg = Debugger::new(make_symbols());
    let r = dbg.handle_status(Status::Signaled(9));
    assert_eq!(r, StopReport::Signaled(9));
    assert!(!dbg.is_running());
}

#[test]
fn test_stop_resolves_function_and_line() {
    let mut dbg = Debugger::new(make_symbols());
    // stopped one past a trap inside foo
    let r = dbg.handle_status(Status::Stopped(5, 0x1106));
    let expected_loc = Some((String::from("foo"), Location { file: String::from("t.c"), line: 7 }));
    assert_eq!(r, StopReport::Stopped { signal: 5, rip: 0x1106, location: expected_loc });
}

#[test]
fn test_stop_at_unknown_address_has_no_location() {
    let mut dbg = Debugger::new(make_symbols());
    let r = dbg.handle_status(Status::Stopped(5, 0x9999));
    assert_eq!(r, StopReport::Stopped { signal: 5, rip: 0x9999, location: None });
}

#[test]
fn test_breakpoints_survive_termination() {
    let mut dbg = Debugger::new(make_symbols());
    dbg.cmd_break("foo");
    dbg.handle_status(Status::Exited(1));
    assert_eq!(dbg.breakpoints().len(), 1);
    assert_eq!(dbg.breakpoints().get(0).addr(), 0x1100);
}
