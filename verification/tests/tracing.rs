use deet::breakpoint::BreakpointTable;
use deet::debugger::{BacktraceReport, BreakReport, ContinueReport, Debugger, StopReport};
use deet::inferior::Inferior;
use deet::symbols::SymbolTable;

// A pid far above the kernel's pid ceiling: every tracing syscall on it
// fails cleanly, which exercises the error paths against the real OS.
fn bogus_pid() -> i32 {
    999_999_999
}

#[test]
fn test_attach_reports_every_failed_patch() {
    let mut table = BreakpointTable::new();
    table.insert(0x1000);
    table.insert(0x2000);
    table.insert(0x3000);
    let (inf, failures) = Inferior::new(bogus_pid(), &mut table);
    // nothing can be patched into a nonexistent process: one failure per
    // table entry, in table order
    assert_eq!(failures, vec![0x1000, 0x2000, 0x3000]);
    assert_eq!(inf.pid(), bogus_pid());
    assert!(inf.get_previous_ins().is_none());
    // the table keeps its entries for the next launch
    assert_eq!(table.len(), 3);
    assert_eq!(table.get(0).orig_byte(), 0);
}

#[test]
fn test_run_on_dead_process_reports_trace_failure() {
    let mut dbg = Debugger::new(SymbolTable::new());
    let (failures, report) = dbg.attach_run(bogus_pid());
    assert!(failures.is_empty());
    assert!(matches!(report, StopReport::TraceFailed(_)));
    // the tracee reference is kept; continuing fails the same way
    assert!(dbg.is_running());
    match dbg.cmd_continue() {
        ContinueReport::Resumed { hit, report } => {
            assert!(hit.is_none());
            assert!(matches!(report, StopReport::TraceFailed(_)));
        }
        other => panic!("unexpected continue report: {:?}", other),
    }
}

#[test]
fn test_install_failure_keeps_table_entry() {
    let mut dbg = Debugger::new(SymbolTable::new());
    let (_, _) = dbg.attach_run(bogus_pid());
    assert!(dbg.is_running());
    let r = dbg.cmd_break("*0x1000");
    assert_eq!(r, BreakReport::InstallFailed { addr: 0x1000 });
    // the entry remains and will be retried at the next launch
    assert_eq!(dbg.breakpoints().len(), 1);
    assert_eq!(dbg.breakpoints().get(0).addr(), 0x1000);
    assert_eq!(dbg.breakpoints().get(0).id(), 1);
}

#[test]
fn test_backtrace_without_registers_fails() {
    let mut dbg = Debugger::new(SymbolTable::new());
    let (_, _) = dbg.attach_run(bogus_pid());
    match dbg.cmd_backtrace() {
        BacktraceReport::Failed(_) => {}
        other => panic!("unexpected backtrace report: {:?}", other),
    }
}

#[test]
fn test_backtrace_not_running() {
    let mut dbg = Debugger::new(SymbolTable::new());
    assert_eq!(dbg.cmd_backtrace(), BacktraceReport::NotRunning);
}

#[test]
fn test_quit_discards_dead_tracee_quietly() {
    let mut dbg = Debugger::new(SymbolTable::new());
    let (_, _) = dbg.attach_run(bogus_pid());
    assert!(dbg.is_running());
    dbg.cmd_quit();
    assert!(!dbg.is_running());
}

#[test]
fn test_prepare_run_discards_tracee_and_keeps_table() {
    let mut dbg = Debugger::new(SymbolTable::new());
    dbg.cmd_break("*0x4000");
    let (_, _) = dbg.attach_run(bogus_pid());
    dbg.prepare_run();
    assert!(!dbg.is_running());
    assert_eq!(dbg.breakpoints().len(), 1);
}
