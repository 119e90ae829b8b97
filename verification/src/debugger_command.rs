//! The closed set of operator commands, decoded from whitespace-split tokens.

use vstd::prelude::*;
use crate::parse::str_eq;

verus! {

broadcast use vstd::string::group_string_axioms;

/// One operator command, as consumed by the debugger.
pub enum DebuggerCommand {
    Quit,
    Cont,
    Back,
    Break(String),
    Run(Vec<String>),
}

/// Token spellings of the quit command.
pub open spec fn is_quit_token(t: Seq<char>) -> bool {
    t == "q"@ || t == "quit"@
}

/// Token spellings of the continue command.
pub open spec fn is_cont_token(t: Seq<char>) -> bool {
    t == "c"@ || t == "cont"@ || t == "continue"@
}

/// Token spellings of the backtrace command.
pub open spec fn is_back_token(t: Seq<char>) -> bool {
    t == "bt"@ || t == "back"@ || t == "backtrace"@
}

/// Token spellings of the break command.
pub open spec fn is_break_token(t: Seq<char>) -> bool {
    t == "b"@ || t == "break"@
}

/// Token spellings of the run command.
pub open spec fn is_run_token(t: Seq<char>) -> bool {
    t == "r"@ || t == "run"@
}

impl DebuggerCommand {
    /// Decodes a tokenized command line.  The first token selects the
    /// command; `break` takes the breakpoint specification as its second
    /// token and `run` takes every remaining token as a target argument.
    /// Anything else, including an empty line or a `break` without a
    /// specification, is not a command.
    pub fn from_tokens(tokens: &Vec<&str>) -> (r: Option<DebuggerCommand>)
        ensures
            tokens@.len() == 0 ==> r is None,
            tokens@.len() > 0 ==> {
                let t0 = tokens@[0]@;
                &&& is_quit_token(t0) ==> r == Some(DebuggerCommand::Quit)
                &&& is_cont_token(t0) ==> r == Some(DebuggerCommand::Cont)
                &&& is_back_token(t0) ==> r == Some(DebuggerCommand::Back)
                &&& is_break_token(t0) && tokens@.len() >= 2 ==> (r matches Some(
                    DebuggerCommand::Break(s),
                ) && s@ == tokens@[1]@)
                &&& is_break_token(t0) && tokens@.len() < 2 ==> r is None
                &&& is_run_token(t0) ==> (r matches Some(DebuggerCommand::Run(args))
                    && args@.len() == tokens@.len() - 1 && (forall|i: int|
                    0 <= i < args@.len() ==> args@[i]@ == tokens@[i + 1]@))
                &&& !is_quit_token(t0) && !is_cont_token(t0) && !is_back_token(t0)
                    && !is_break_token(t0) && !is_run_token(t0) ==> r is None
            },
    {
        proof {
            reveal_strlit("q");
            reveal_strlit("quit");
            reveal_strlit("c");
            reveal_strlit("cont");
            reveal_strlit("continue");
            reveal_strlit("bt");
            reveal_strlit("back");
            reveal_strlit("backtrace");
            reveal_strlit("b");
            reveal_strlit("break");
            reveal_strlit("r");
            reveal_strlit("run");
            assert("q"@.len() == 1);
            assert("quit"@.len() == 4);
            assert("c"@.len() == 1);
            assert("cont"@.len() == 4);
            assert("continue"@.len() == 8);
            assert("bt"@.len() == 2);
            assert("back"@.len() == 4);
            assert("backtrace"@.len() == 9);
            assert("b"@.len() == 1);
            assert("break"@.len() == 5);
            assert("r"@.len() == 1);
            assert("run"@.len() == 3);
            // Same-length spellings are told apart by their first character.
            assert("q"@[0] == 'q');
            assert("c"@[0] == 'c');
            assert("b"@[0] == 'b');
            assert("r"@[0] == 'r');
            assert("quit"@[0] == 'q');
            assert("cont"@[0] == 'c');
            assert("back"@[0] == 'b');
        }
        if tokens.len() == 0 {
            return None;
        }
        let t0: &str = tokens[0];
        if str_eq(t0, "q") || str_eq(t0, "quit") {
            Some(DebuggerCommand::Quit)
        } else if str_eq(t0, "c") || str_eq(t0, "cont") || str_eq(t0, "continue") {
            Some(DebuggerCommand::Cont)
        } else if str_eq(t0, "bt") || str_eq(t0, "back") || str_eq(t0, "backtrace") {
            Some(DebuggerCommand::Back)
        } else if str_eq(t0, "b") || str_eq(t0, "break") {
            if tokens.len() < 2 {
                return None;
            }
            Some(DebuggerCommand::Break(tokens[1].to_owned()))
        } else if str_eq(t0, "r") || str_eq(t0, "run") {
            let mut args: Vec<String> = Vec::new();
            let mut i: usize = 1;
            while i < tokens.len()
                invariant
                    1 <= i <= tokens@.len(),
                    args@.len() == i - 1,
                    forall|j: int| 0 <= j < args@.len() ==> args@[j]@ == tokens@[j + 1]@,
                decreases tokens@.len() - i,
            {
                args.push(tokens[i].to_owned());
                i = i + 1;
            }
            Some(DebuggerCommand::Run(args))
        } else {
            None
        }
    }
}

} // verus!
