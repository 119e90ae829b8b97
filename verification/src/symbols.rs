//! In-memory model of the target's debug information: address ranges for
//! functions and source lines.  The debugger consults it through four lookup
//! operations; whatever reads the target's symbol data fills the table.
//! Every lookup returns the first matching entry, or nothing.

use vstd::prelude::*;
use crate::parse::str_eq;

verus! {

/// A function of the target: its name, declaring file and code range
/// `[low, high)`.
pub struct FunctionSym {
    pub name: String,
    pub file: String,
    pub low: usize,
    pub high: usize,
}

/// A source line of the target and the code range `[low, high)` it covers.
pub struct LineSym {
    pub file: String,
    pub line: usize,
    pub low: usize,
    pub high: usize,
}

/// A resolved source location.
#[derive(PartialEq, Eq, Debug)]
pub struct Location {
    pub file: String,
    pub line: usize,
}

/// The symbol table: function and line entries, searched in insertion order.
pub struct SymbolTable {
    funcs: Vec<FunctionSym>,
    lines: Vec<LineSym>,
}

/// Whether `addr` lies in the code range of `f`.
pub open spec fn func_contains(f: FunctionSym, addr: usize) -> bool {
    f.low <= addr < f.high
}

/// Whether `addr` lies in the code range of `l`.
pub open spec fn line_contains(l: LineSym, addr: usize) -> bool {
    l.low <= addr < l.high
}

/// Whether `l` is the requested source line, optionally in a requested file.
pub open spec fn line_names(l: LineSym, file: Option<&str>, line: usize) -> bool {
    l.line == line && (file matches Some(f) ==> l.file@ == f@)
}

/// Whether `f` has the requested name, optionally in a requested file.
pub open spec fn func_names(f: FunctionSym, file: Option<&str>, name: Seq<char>) -> bool {
    f.name@ == name && (file matches Some(ff) ==> f.file@ == ff@)
}

/// The first function entry whose range contains `addr`.
pub open spec fn spec_first_func_at(s: Seq<FunctionSym>, addr: usize) -> Option<FunctionSym>
    decreases s.len(),
{
    if s.len() == 0 {
        None
    } else if func_contains(s[0], addr) {
        Some(s[0])
    } else {
        spec_first_func_at(s.drop_first(), addr)
    }
}

/// The first line entry whose range contains `addr`.
pub open spec fn spec_first_line_at(s: Seq<LineSym>, addr: usize) -> Option<LineSym>
    decreases s.len(),
{
    if s.len() == 0 {
        None
    } else if line_contains(s[0], addr) {
        Some(s[0])
    } else {
        spec_first_line_at(s.drop_first(), addr)
    }
}

/// The first line entry for a given source line.
pub open spec fn spec_first_line_named(s: Seq<LineSym>, file: Option<&str>, line: usize) -> Option<
    LineSym,
>
    decreases s.len(),
{
    if s.len() == 0 {
        None
    } else if line_names(s[0], file, line) {
        Some(s[0])
    } else {
        spec_first_line_named(s.drop_first(), file, line)
    }
}

/// The first function entry with a given name.
pub open spec fn spec_first_func_named(
    s: Seq<FunctionSym>,
    file: Option<&str>,
    name: Seq<char>,
) -> Option<FunctionSym>
    decreases s.len(),
{
    if s.len() == 0 {
        None
    } else if func_names(s[0], file, name) {
        Some(s[0])
    } else {
        spec_first_func_named(s.drop_first(), file, name)
    }
}

impl SymbolTable {
    /// The function entries, in insertion order.
    pub closed spec fn funcs(self) -> Seq<FunctionSym> {
        self.funcs@
    }

    /// The line entries, in insertion order.
    pub closed spec fn lines(self) -> Seq<LineSym> {
        self.lines@
    }

    /// The name of the function covering `addr`, if any.
    pub open spec fn spec_function_at(self, addr: usize) -> Option<String> {
        match spec_first_func_at(self.funcs(), addr) {
            None => None,
            Some(f) => Some(f.name),
        }
    }

    /// The source location covering `addr`, if any.
    pub open spec fn spec_line_at(self, addr: usize) -> Option<Location> {
        match spec_first_line_at(self.lines(), addr) {
            None => None,
            Some(l) => Some(Location { file: l.file, line: l.line }),
        }
    }

    /// The code address of a source line, if any.
    pub open spec fn spec_addr_for_line(self, file: Option<&str>, line: usize) -> Option<usize> {
        match spec_first_line_named(self.lines(), file, line) {
            None => None,
            Some(l) => Some(l.low),
        }
    }

    /// The code address of a function, if any.
    pub open spec fn spec_addr_for_function(self, file: Option<&str>, name: Seq<char>) -> Option<
        usize,
    > {
        match spec_first_func_named(self.funcs(), file, name) {
            None => None,
            Some(f) => Some(f.low),
        }
    }

    /// An empty table, resolving nothing.
    pub fn new() -> (r: SymbolTable)
        ensures
            r.funcs() =~= Seq::<FunctionSym>::empty(),
            r.lines() =~= Seq::<LineSym>::empty(),
    {
        SymbolTable { funcs: Vec::new(), lines: Vec::new() }
    }

    /// Records a function entry.
    pub fn add_function(&mut self, name: String, file: String, low: usize, high: usize)
        ensures
            final(self).funcs() =~= old(self).funcs().push(
                FunctionSym { name, file, low, high },
            ),
            final(self).lines() == old(self).lines(),
    {
        self.funcs.push(FunctionSym { name, file, low, high });
    }

    /// Records a line entry.
    pub fn add_line(&mut self, file: String, line: usize, low: usize, high: usize)
        ensures
            final(self).lines() =~= old(self).lines().push(LineSym { file, line, low, high }),
            final(self).funcs() == old(self).funcs(),
    {
        self.lines.push(LineSym { file, line, low, high });
    }

    /// Resolves `addr` to the name of the function containing it.
    pub fn get_function_from_addr(&self, addr: usize) -> (r: Option<String>)
        ensures
            r == self.spec_function_at(addr),
    {
        let mut i: usize = 0;
        proof {
            assert(self.funcs@.skip(0) =~= self.funcs@);
        }
        while i < self.funcs.len()
            invariant
                i <= self.funcs@.len(),
                spec_first_func_at(self.funcs@, addr) == spec_first_func_at(
                    self.funcs@.skip(i as int),
                    addr,
                ),
            decreases self.funcs@.len() - i,
        {
            let f = &self.funcs[i];
            proof {
                assert(self.funcs@.skip(i as int).drop_first() =~= self.funcs@.skip(i + 1));
                assert(self.funcs@.skip(i as int)[0] == self.funcs@[i as int]);
            }
            if f.low <= addr && addr < f.high {
                return Some(f.name.clone());
            }
            i = i + 1;
        }
        None
    }

    /// Resolves `addr` to the source location containing it.
    pub fn get_line_from_addr(&self, addr: usize) -> (r: Option<Location>)
        ensures
            r == self.spec_line_at(addr),
    {
        let mut i: usize = 0;
        proof {
            assert(self.lines@.skip(0) =~= self.lines@);
        }
        while i < self.lines.len()
            invariant
                i <= self.lines@.len(),
                spec_first_line_at(self.lines@, addr) == spec_first_line_at(
                    self.lines@.skip(i as int),
                    addr,
                ),
            decreases self.lines@.len() - i,
        {
            let l = &self.lines[i];
            proof {
                assert(self.lines@.skip(i as int).drop_first() =~= self.lines@.skip(i + 1));
                assert(self.lines@.skip(i as int)[0] == self.lines@[i as int]);
            }
            if l.low <= addr && addr < l.high {
                return Some(Location { file: l.file.clone(), line: l.line });
            }
            i = i + 1;
        }
        None
    }

    /// Resolves a source line to its code address.
    pub fn get_addr_for_line(&self, file: Option<&str>, line: usize) -> (r: Option<usize>)
        ensures
            r == self.spec_addr_for_line(file, line),
    {
        let mut i: usize = 0;
        proof {
            assert(self.lines@.skip(0) =~= self.lines@);
        }
        while i < self.lines.len()
            invariant
                i <= self.lines@.len(),
                spec_first_line_named(self.lines@, file, line) == spec_first_line_named(
                    self.lines@.skip(i as int),
                    file,
                    line,
                ),
            decreases self.lines@.len() - i,
        {
            let l = &self.lines[i];
            proof {
                assert(self.lines@.skip(i as int).drop_first() =~= self.lines@.skip(i + 1));
                assert(self.lines@.skip(i as int)[0] == self.lines@[i as int]);
            }
            let file_ok = match file {
                None => true,
                Some(f) => str_eq(l.file.as_str(), f),
            };
            if l.line == line && file_ok {
                return Some(l.low);
            }
            i = i + 1;
        }
        None
    }

    /// Resolves a function name to its code address.
    pub fn get_addr_for_function(&self, file: Option<&str>, name: &str) -> (r: Option<usize>)
        ensures
            r == self.spec_addr_for_function(file, name@),
    {
        let mut i: usize = 0;
        proof {
            assert(self.funcs@.skip(0) =~= self.funcs@);
        }
        while i < self.funcs.len()
            invariant
                i <= self.funcs@.len(),
                spec_first_func_named(self.funcs@, file, name@) == spec_first_func_named(
                    self.funcs@.skip(i as int),
                    file,
                    name@,
                ),
            decreases self.funcs@.len() - i,
        {
            let f = &self.funcs[i];
            proof {
                assert(self.funcs@.skip(i as int).drop_first() =~= self.funcs@.skip(i + 1));
                assert(self.funcs@.skip(i as int)[0] == self.funcs@[i as int]);
            }
            let file_ok = match file {
                None => true,
                Some(ff) => str_eq(f.file.as_str(), ff),
            };
            if str_eq(f.name.as_str(), name) && file_ok {
                return Some(f.low);
            }
            i = i + 1;
        }
        None
    }
}

} // verus!
