use deet::inferior::{backtrace_walk, BacktraceError, MemoryReader, MAX_FRAMES};
use deet::symbols::SymbolTable;

/// A fake tracee address space: a list of (address, word) pairs, with an
/// optional word served for every other address.
struct FakeMemory {
    words: Vec<(usize, u64)>,
    default: Option<u64>,
}

impl MemoryReader for FakeMemory {
    fn read_word(&mut self, addr: usize) -> Option<u64> {
        for (a, w) in self.words.iter() {
            if *a == addr {
                return Some(*w);
            }
        }
        self.default
    }
}

fn make_symbols() -> SymbolTable {
    let mut symbols = SymbolTable::new();
    symbols.add_function(String::from("main"), String::from("t.c"), 0x1000, 0x1100);
    symbols.add_function(String::from("foo"), String::from("t.c"), 0x1100, 0x1200);
    symbols.add_line(String::from("t.c"), 10, 0x1000, 0x1010);
    symbols.add_line(String::from("t.c"), 7, 0x1100, 0x1108);
    symbols
}

#[test]
fn test_backtrace_stopped_in_main_is_one_frame() {
    let symbols = make_symbols();
    let mut mem = FakeMemory { words: vec![], default: None };
    let frames = backtrace_walk(&symbols, 0x1004, 0x7f00, &mut mem).unwrap();
    assert_eq!(frames.len(), 1);
    assert_eq!(frames[0].function, "main");
    assert_eq!(frames[0].file, "t.c");
    assert_eq!(frames[0].line, 10);
}

#[test]
fn test_backtrace_foo_called_from_main() {
    let symbols = make_symbols();
    // foo's frame base is 0x7f00: the saved return address (into main)
    // sits one word above it, the saved frame pointer at it.
    let mut mem = FakeMemory {
        words: vec![(0x7f08, 0x1008), (0x7f00, 0x7f80)],
        default: None,
    };
    let frames = backtrace_walk(&symbols, 0x1105, 0x7f00, &mut mem).unwrap();
    assert_eq!(frames.len(), 2);
    assert_eq!(frames[0].function, "foo");
    assert_eq!(frames[0].line, 7);
    assert_eq!(frames[1].function, "main");
    assert_eq!(frames[1].line, 10);
}

#[test]
fn test_backtrace_unresolved_address() {
    let symbols = SymbolTable::new();
    let mut mem = FakeMemory { words: vec![], default: None };
    let r = backtrace_walk(&symbols, 0x5000, 0x7f00, &mut mem);
    assert_eq!(r, Err(BacktraceError::Unresolved(0x5000)));
}

#[test]
fn test_backtrace_unreadable_stack() {
    let symbols = make_symbols();
    let mut mem = FakeMemory { words: vec![], default: None };
    let r = backtrace_walk(&symbols, 0x1105, 0x7f00, &mut mem);
    assert_eq!(r, Err(BacktraceError::MemoryRead(0x7f08)));
}

#[test]
fn test_backtrace_caps_a_looping_frame_chain() {
    let mut symbols = SymbolTable::new();
    symbols.add_function(String::from("spin"), String::from("t.c"), 0x1100, 0x1200);
    symbols.add_line(String::from("t.c"), 3, 0x1100, 0x1200);
    // every stack word points back into spin's own frame
    let mut mem = FakeMemory { words: vec![], default: Some(0x1105) };
    let r = backtrace_walk(&symbols, 0x1105, 0x1105, &mut mem);
    assert_eq!(r, Err(BacktraceError::TooDeep));
    assert!(MAX_FRAMES >= 1);
}
