use deet::debugger::{get_breakpoint_type, parse_address, BreakPointType};
use deet::debugger_command::DebuggerCommand;
use deet::parse::{parse_usize_in_radix, str_eq};

#[test]
fn test_str_eq() {
    assert!(str_eq("main", "main"));
    assert!(str_eq("", ""));
    assert!(!str_eq("main", "mains"));
    assert!(!str_eq("main", "majn"));
}

#[test]
fn test_parse_usize_in_radix() {
    assert_eq!(parse_usize_in_radix("42", 10), Some(42));
    assert_eq!(parse_usize_in_radix("+42", 10), Some(42));
    assert_eq!(parse_usize_in_radix("0", 10), Some(0));
    assert_eq!(parse_usize_in_radix("", 10), None);
    assert_eq!(parse_usize_in_radix("+", 10), None);
    assert_eq!(parse_usize_in_radix("4a", 10), None);
    assert_eq!(parse_usize_in_radix("ff", 16), Some(255));
    assert_eq!(parse_usize_in_radix("FF", 16), Some(255));
    // one past usize::MAX overflows
    assert_eq!(parse_usize_in_radix("18446744073709551615", 10), Some(usize::MAX));
    assert_eq!(parse_usize_in_radix("18446744073709551616", 10), None);
}

#[test]
fn test_parse_address() {
    assert_eq!(parse_address("0x1f"), Some(0x1f));
    assert_eq!(parse_address("0X1F"), Some(0x1f));
    assert_eq!(parse_address("1f"), Some(0x1f));
    assert_eq!(parse_address("1000"), Some(0x1000));
    assert_eq!(parse_address("0x"), None);
    assert_eq!(parse_address(""), None);
    assert_eq!(parse_address("zz"), None);
}

#[test]
fn test_get_breakpoint_type() {
    assert!(matches!(get_breakpoint_type("*0x10"), BreakPointType::Raw("0x10")));
    assert!(matches!(get_breakpoint_type("42"), BreakPointType::Line(42)));
    assert!(matches!(get_breakpoint_type("main"), BreakPointType::Func("main")));
    // a non-decimal token is a function name even if it holds digits
    assert!(matches!(get_breakpoint_type("f00"), BreakPointType::Func("f00")));
}

#[test]
fn test_from_tokens_quit() {
    assert!(matches!(DebuggerCommand::from_tokens(&vec!["q"]), Some(DebuggerCommand::Quit)));
    assert!(matches!(DebuggerCommand::from_tokens(&vec!["quit"]), Some(DebuggerCommand::Quit)));
}

#[test]
fn test_from_tokens_cont() {
    assert!(matches!(DebuggerCommand::from_tokens(&vec!["c"]), Some(DebuggerCommand::Cont)));
    assert!(matches!(DebuggerCommand::from_tokens(&vec!["cont"]), Some(DebuggerCommand::Cont)));
    assert!(matches!(DebuggerCommand::from_tokens(&vec!["continue"]), Some(DebuggerCommand::Cont)));
}

#[test]
fn test_from_tokens_backtrace() {
    assert!(matches!(DebuggerCommand::from_tokens(&vec!["bt"]), Some(DebuggerCommand::Back)));
    assert!(matches!(DebuggerCommand::from_tokens(&vec!["back"]), Some(DebuggerCommand::Back)));
    assert!(matches!(
        DebuggerCommand::from_tokens(&vec!["backtrace"]),
        Some(DebuggerCommand::Back)
    ));
}

#[test]
fn test_from_tokens_break() {
    match DebuggerCommand::from_tokens(&vec!["b", "main"]) {
        Some(DebuggerCommand::Break(s)) => assert_eq!(s, "main"),
        _ => panic!("expected a break command"),
    }
    match DebuggerCommand::from_tokens(&vec!["break", "*0x42"]) {
        Some(DebuggerCommand::Break(s)) => assert_eq!(s, "*0x42"),
        _ => panic!("expected a break command"),
    }
    // break without a specification is not a command
    assert!(DebuggerCommand::from_tokens(&vec!["b"]).is_none());
}

#[test]
fn test_from_tokens_run() {
    match DebuggerCommand::from_tokens(&vec!["r", "alpha", "beta"]) {
        Some(DebuggerCommand::Run(args)) => assert_eq!(args, vec!["alpha", "beta"]),
        _ => panic!("expected a run command"),
    }
    match DebuggerCommand::from_tokens(&vec!["run"]) {
        Some(DebuggerCommand::Run(args)) => assert!(args.is_empty()),
        _ => panic!("expected a run command"),
    }
}

#[test]
fn test_from_tokens_unrecognized() {
    assert!(DebuggerCommand::from_tokens(&vec!["step"]).is_none());
    assert!(DebuggerCommand::from_tokens(&vec![]).is_none());
}
