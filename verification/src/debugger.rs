//! The debugger session: the authoritative breakpoint table, the current
//! tracee (if any), breakpoint-specification resolution, and the
//! run/stop/resume policy.  Each operator command is one method; what it
//! would print is returned as a structured report for the caller to render.

use vstd::prelude::*;
use crate::breakpoint::{
    bps_contain, bps_index_of, bps_same_shape, bps_wf, lemma_index_of_unique, spec_break_id,
    spec_break_insert, BreakPoint, BreakpointTable,
};
use crate::inferior::{BacktraceError, Frame, Inferior, Status, TraceError};
use crate::parse::{spec_parse_usize, parse_usize_in_radix};
use crate::symbols::{Location, SymbolTable};

verus! {

broadcast use crate::breakpoint::BreakPoint::lemma_spec_new_fields;

/// How a breakpoint specification is read: `*<hex>` is a raw address, a
/// decimal token is a source line, anything else is a function name.
pub enum BreakPointType<'a> {
    Raw(&'a str),
    Line(usize),
    Func(&'a str),
}

/// What parsing a hexadecimal address token yields: an optional `0x`/`0X`
/// prefix is stripped, the rest is read in base sixteen.
pub open spec fn spec_parse_address(s: Seq<char>) -> Option<usize> {
    let body = if s.len() >= 2 && s[0] == '0' && (s[1] == 'x' || s[1] == 'X') {
        s.skip(2)
    } else {
        s
    };
    spec_parse_usize(body, 16)
}

/// Parses a hexadecimal address token, accepting and stripping a `0x`/`0X`
/// prefix.
pub fn parse_address(address: &str) -> (r: Option<usize>)
    ensures
        r == spec_parse_address(address@),
{
    let len = address.unicode_len();
    let stripped: &str = if len >= 2 && address.get_char(0) == '0' && (address.get_char(1) == 'x'
        || address.get_char(1) == 'X') {
        let rest = address.substring_char(2, len);
        proof {
            assert(rest@ =~= address@.skip(2));
        }
        rest
    } else {
        address
    };
    parse_usize_in_radix(stripped, 16)
}

/// Classifies a breakpoint specification by its surface syntax.
pub fn get_breakpoint_type(breakpoint: &str) -> (r: BreakPointType)
    ensures
        breakpoint@.len() > 0 && breakpoint@[0] == '*' ==> (r matches BreakPointType::Raw(a) && a@
            =~= breakpoint@.skip(1)),
        !(breakpoint@.len() > 0 && breakpoint@[0] == '*') ==> match spec_parse_usize(
            breakpoint@,
            10,
        ) {
            Some(n) => r == BreakPointType::Line(n),
            None => r matches BreakPointType::Func(f) && f@ == breakpoint@,
        },
{
    let len = breakpoint.unicode_len();
    if len > 0 && breakpoint.get_char(0) == '*' {
        let rest = breakpoint.substring_char(1, len);
        proof {
            assert(rest@ =~= breakpoint@.skip(1));
        }
        return BreakPointType::Raw(rest);
    }
    match parse_usize_in_radix(breakpoint, 10) {
        Some(line) => BreakPointType::Line(line),
        None => BreakPointType::Func(breakpoint),
    }
}

/// The outcome of a break command.
#[derive(Debug, PartialEq, Eq)]
pub enum BreakReport {
    /// A breakpoint exists for the resolved address, with this id.
    Placed { id: usize, addr: usize },
    /// The entry was created, but patching the live process failed; it will
    /// be retried at the next launch.
    InstallFailed { addr: usize },
    /// The raw address was not valid hexadecimal.
    MalformedAddress,
    /// No code address is known for this source line.
    UnresolvedLine(usize),
    /// No code address is known for this function.
    UnresolvedFunction(String),
}

/// The outcome of resuming (or starting) the tracee.
#[derive(Debug, PartialEq, Eq)]
pub enum StopReport {
    /// The child exited with this code.
    Exited(i32),
    /// The child was terminated by this signal.
    Signaled(i32),
    /// The child stopped on a signal at this instruction pointer; the
    /// location is resolved best-effort.
    Stopped { signal: i32, rip: usize, location: Option<(String, Location)> },
    /// The tracing syscall itself failed.
    TraceFailed(TraceError),
}

/// The outcome of a continue command.
#[derive(Debug, PartialEq, Eq)]
pub enum ContinueReport {
    /// No process is being run.
    NotRunning,
    /// The tracee was stopped at this breakpoint, and stepping past it
    /// failed; the continue attempt was aborted.
    StepFailed { bp: BreakPoint },
    /// The tracee was resumed; if it had been stopped exactly at a
    /// breakpoint, that breakpoint is reported.
    Resumed { hit: Option<BreakPoint>, report: StopReport },
}

/// The outcome of a backtrace command.
#[derive(Debug, PartialEq, Eq)]
pub enum BacktraceReport {
    /// No process is being run.
    NotRunning,
    /// The stack walk failed.
    Failed(BacktraceError),
    /// The resolved frames, innermost first.
    Frames(Vec<Frame>),
}

/// The debugger session.
pub struct Debugger {
    symbols: SymbolTable,
    breakpoints: BreakpointTable,
    inferior: Option<Inferior>,
}

impl Debugger {
    /// The symbol table consulted for resolution.
    pub closed spec fn spec_symbols(self) -> SymbolTable {
        self.symbols
    }

    /// The breakpoint table's entries.
    pub closed spec fn spec_breakpoints(self) -> Seq<BreakPoint> {
        self.breakpoints@
    }

    /// The current tracee, if one is live.
    pub closed spec fn spec_inferior(self) -> Option<Inferior> {
        self.inferior
    }

    /// Session well-formedness: the breakpoint table is well-formed.
    pub open spec fn wf(self) -> bool {
        bps_wf(self.spec_breakpoints())
    }

    /// The address a breakpoint specification resolves to, if any.
    pub open spec fn spec_resolve(self, s: Seq<char>) -> Option<usize> {
        if s.len() > 0 && s[0] == '*' {
            spec_parse_address(s.skip(1))
        } else if spec_parse_usize(s, 10) is Some {
            self.spec_symbols().spec_addr_for_line(None, spec_parse_usize(s, 10)->Some_0)
        } else {
            self.spec_symbols().spec_addr_for_function(None, s)
        }
    }

    /// A fresh session over the given symbol table: no breakpoints, no
    /// tracee.
    pub fn new(symbols: SymbolTable) -> (r: Debugger)
        ensures
            r.wf(),
            r.spec_symbols() == symbols,
            r.spec_breakpoints() =~= Seq::<BreakPoint>::empty(),
            r.spec_inferior() is None,
    {
        Debugger { symbols, breakpoints: BreakpointTable::new(), inferior: None }
    }

    /// Whether a tracee is live.
    pub fn is_running(&self) -> (r: bool)
        ensures
            r == (self.spec_inferior() is Some),
    {
        self.inferior.is_some()
    }

    /// The breakpoint table, for inspection.
    pub fn breakpoints(&self) -> (r: &BreakpointTable)
        ensures
            r@ == self.spec_breakpoints(),
    {
        &self.breakpoints
    }

    /// Handles a break command: resolves the specification, creates a table
    /// entry if the address has none (assigning the next id), and patches the
    /// live tracee immediately if there is one.  A resolution failure changes
    /// nothing; an install failure keeps the entry for the next launch.
    pub fn cmd_break(&mut self, bp: &str) -> (r: BreakReport)
        requires
            old(self).wf(),
            old(self).spec_breakpoints().len() < usize::MAX,
        ensures
            final(self).wf(),
            final(self).spec_symbols() == old(self).spec_symbols(),
            // resolution failures change nothing and name their cause
            old(self).spec_resolve(bp@) is None ==> final(self).spec_breakpoints() == old(self).spec_breakpoints() && final(self).spec_inferior() == old(self).spec_inferior(),
            (bp@.len() > 0 && bp@[0] == '*' && spec_parse_address(bp@.skip(1)) is None) ==> r
                == BreakReport::MalformedAddress,
            (!(bp@.len() > 0 && bp@[0] == '*') && spec_parse_usize(bp@, 10) is Some && old(self)
                .spec_symbols().spec_addr_for_line(None, spec_parse_usize(bp@, 10)->Some_0) is None)
                ==> r == BreakReport::UnresolvedLine(spec_parse_usize(bp@, 10)->Some_0),
            (!(bp@.len() > 0 && bp@[0] == '*') && spec_parse_usize(bp@, 10) is None && old(self).spec_symbols().spec_addr_for_function(None, bp@) is None) ==> (r matches
                BreakReport::UnresolvedFunction(f) && f@ == bp@),
            // a resolved address yields the insert-if-absent table and
            // reports the entry's id
            old(self).spec_resolve(bp@) matches Some(addr) ==> {
                &&& bps_same_shape(
                    final(self).spec_breakpoints(),
                    spec_break_insert(old(self).spec_breakpoints(), addr),
                )
                &&& r == BreakReport::Placed {
                    id: spec_break_id(old(self).spec_breakpoints(), addr),
                    addr,
                } || r == BreakReport::InstallFailed { addr }
                &&& r == BreakReport::InstallFailed { addr } ==> !bps_contain(
                    old(self).spec_breakpoints(),
                    addr,
                ) && old(self).spec_inferior() is Some
                // an existing entry is reported as is, and nothing changes
                &&& bps_contain(old(self).spec_breakpoints(), addr) ==> final(self).spec_breakpoints() == old(self).spec_breakpoints() && r == BreakReport::Placed {
                    id: spec_break_id(old(self).spec_breakpoints(), addr),
                    addr,
                }
            },
    {
        let addr: usize = match get_breakpoint_type(bp) {
            BreakPointType::Raw(a) => match parse_address(a) {
                Some(x) => x,
                None => {
                    return BreakReport::MalformedAddress;
                },
            },
            BreakPointType::Line(line) => match self.symbols.get_addr_for_line(None, line) {
                Some(x) => x,
                None => {
                    return BreakReport::UnresolvedLine(line);
                },
            },
            BreakPointType::Func(f) => match self.symbols.get_addr_for_function(None, f) {
                Some(x) => x,
                None => {
                    return BreakReport::UnresolvedFunction(f.to_owned());
                },
            },
        };
        match self.breakpoints.find_index(addr) {
            Some(i) => {
                proof {
                    lemma_index_of_unique(self.breakpoints@, addr, i as int);
                }
                let id = self.breakpoints.get(i).id();
                BreakReport::Placed { id, addr }
            },
            None => {
                let id = self.breakpoints.len() + 1;
                let idx = self.breakpoints.len();
                self.breakpoints.insert(addr);
                match &mut self.inferior {
                    None => BreakReport::Placed { id, addr },
                    Some(inf) => match inf.write_breakpoint(addr) {
                        Ok(byte) => {
                            self.breakpoints.record_byte(idx, byte);
                            BreakReport::Placed { id, addr }
                        },
                        Err(_) => BreakReport::InstallFailed { addr },
                    },
                }
            },
        }
    }

    /// Interprets a status reported by the tracee: a termination clears the
    /// process reference (the breakpoint table is untouched), a stop is
    /// resolved best-effort to a function and source location.
    pub fn handle_status(&mut self, status: Status) -> (r: StopReport)
        requires
            old(self).wf(),
        ensures
            final(self).wf(),
            final(self).spec_symbols() == old(self).spec_symbols(),
            final(self).spec_breakpoints() == old(self).spec_breakpoints(),
            match status {
                Status::Exited(code) => r == StopReport::Exited(code) && final(self).spec_inferior() is None,
                Status::Signaled(sig) => r == StopReport::Signaled(sig) && final(self).spec_inferior() is None,
                Status::Stopped(sig, rip) => final(self).spec_inferior() == old(self).spec_inferior() && (r matches StopReport::Stopped {
                    signal,
                    rip: rrip,
                    location,
                } && signal == sig && rrip == rip && location == (match (
                    old(self).spec_symbols().spec_function_at(rip),
                    old(self).spec_symbols().spec_line_at(rip),
                ) {
                    (Some(f), Some(l)) => Some((f, l)),
                    _ => None::<(String, Location)>,
                })),
            },
    {
        match status {
            Status::Exited(code) => {
                self.inferior = None;
                StopReport::Exited(code)
            },
            Status::Signaled(sig) => {
                self.inferior = None;
                StopReport::Signaled(sig)
            },
            Status::Stopped(sig, rip) => {
                let function = self.symbols.get_function_from_addr(rip);
                let line = self.symbols.get_line_from_addr(rip);
                let location = match (function, line) {
                    (Some(f), Some(l)) => Some((f, l)),
                    _ => None,
                };
                StopReport::Stopped { signal: sig, rip, location }
            },
        }
    }

    /// Resumes the live tracee and interprets what comes back.  A failure of
    /// the tracing call itself keeps the tracee.
    fn resume_and_report(&mut self) -> (r: StopReport)
        requires
            old(self).wf(),
            old(self).spec_inferior() is Some,
        ensures
            final(self).wf(),
            final(self).spec_symbols() == old(self).spec_symbols(),
            final(self).spec_breakpoints() == old(self).spec_breakpoints(),
            (r matches StopReport::Exited(_) || r matches StopReport::Signaled(_)) ==> final(self).spec_inferior() is None,
            r matches StopReport::TraceFailed(_) ==> final(self).spec_inferior() is Some,
            // the set of patched addresses survives a resume
            (r matches StopReport::Stopped { .. } || r matches StopReport::TraceFailed(_)) ==> (
            final(self).spec_inferior() matches Some(inf2) && old(self).spec_inferior() matches
                Some(inf1) && inf2.spec_installed() == inf1.spec_installed()),
            r matches StopReport::Stopped { signal, rip, location } ==> {
                &&& final(self).spec_inferior() matches Some(inf) && inf.spec_last_rip() == Some(
                    rip,
                )
                &&& location == (match (
                    old(self).spec_symbols().spec_function_at(rip),
                    old(self).spec_symbols().spec_line_at(rip),
                ) {
                    (Some(f), Some(l)) => Some((f, l)),
                    _ => None::<(String, Location)>,
                })
            },
    {
        let status = match &mut self.inferior {
            Some(inf) => inf.continue_run(None),
            None => vstd::pervasive::unreached(),
        };
        match status {
            Err(e) => StopReport::TraceFailed(e),
            Ok(st) => self.handle_status(st),
        }
    }

    /// Prepares a new run: kills and discards any existing tracee.  The
    /// breakpoint table persists across runs.
    pub fn prepare_run(&mut self)
        requires
            old(self).wf(),
        ensures
            final(self).wf(),
            final(self).spec_symbols() == old(self).spec_symbols(),
            final(self).spec_breakpoints() == old(self).spec_breakpoints(),
            final(self).spec_inferior() is None,
    {
        match &mut self.inferior {
            Some(inf) => inf.kill(),
            None => {},
        }
        self.inferior = None;
    }

    /// Adopts a freshly spawned traced child: patches every table entry into
    /// its memory (failures are returned, not fatal), then resumes it and
    /// reports the first stop or exit.
    pub fn attach_run(&mut self, pid: i32) -> (r: (Vec<usize>, StopReport))
        requires
            old(self).wf(),
            old(self).spec_inferior() is None,
        ensures
            final(self).wf(),
            final(self).spec_symbols() == old(self).spec_symbols(),
            bps_same_shape(final(self).spec_breakpoints(), old(self).spec_breakpoints()),
            forall|j: int|
                0 <= j < r.0@.len() ==> bps_contain(
                    old(self).spec_breakpoints(),
                    #[trigger] r.0@[j],
                ),
            (r.1 matches StopReport::Exited(_) || r.1 matches StopReport::Signaled(_)) ==> final(self).spec_inferior() is None,
            (r.1 matches StopReport::Stopped { .. } || r.1 matches StopReport::TraceFailed(_))
                ==> final(self).spec_inferior() is Some,
            // when every patch succeeded, a trap byte is in at every table
            // address — one per pre-existing breakpoint — and that is still
            // so at the first stop
            (r.0@.len() == 0 && (r.1 matches StopReport::Stopped { .. } || r.1 matches
                StopReport::TraceFailed(_))) ==> (final(self).spec_inferior() matches Some(inf)
                && inf.spec_installed() =~= Seq::new(
                old(self).spec_breakpoints().len(),
                |i: int| old(self).spec_breakpoints()[i].spec_addr(),
            )),
    {
        let (inf, failures) = Inferior::new(pid, &mut self.breakpoints);
        self.inferior = Some(inf);
        let report = self.resume_and_report();
        (failures, report)
    }

    /// Handles a continue command: if the tracee is stopped exactly at a
    /// breakpoint, steps past it first (using the recorded original byte),
    /// then resumes and interprets the next status.
    pub fn cmd_continue(&mut self) -> (r: ContinueReport)
        requires
            old(self).wf(),
        ensures
            final(self).wf(),
            final(self).spec_symbols() == old(self).spec_symbols(),
            final(self).spec_breakpoints() == old(self).spec_breakpoints(),
            // without a live tracee the command is a no-op
            (old(self).spec_inferior() is None) <==> r == ContinueReport::NotRunning,
            r == ContinueReport::NotRunning ==> final(self).spec_inferior() == old(self).spec_inferior(),
            // the step-over decision: a breakpoint is reported as hit exactly
            // when the last observed instruction pointer is its address
            old(self).spec_inferior() matches Some(inf) ==> {
                let at_bp = inf.spec_previous_ins() matches Some(a) && bps_contain(
                    old(self).spec_breakpoints(),
                    a,
                );
                &&& (r matches ContinueReport::Resumed { hit: Some(b), .. } ==> at_bp && b == old(self).spec_breakpoints()[bps_index_of(
                    old(self).spec_breakpoints(),
                    inf.spec_previous_ins()->Some_0,
                )])
                &&& (r matches ContinueReport::Resumed { hit: None, .. } ==> !at_bp)
                &&& (r matches ContinueReport::StepFailed { bp } ==> at_bp && Some(bp.spec_addr())
                    == inf.spec_previous_ins() && final(self).spec_inferior() is Some)
            },
            // a termination clears the process reference; a stop keeps it
            r matches ContinueReport::Resumed { report, .. } ==> {
                &&& (report matches StopReport::Exited(_) || report matches StopReport::Signaled(
                    _,
                )) ==> final(self).spec_inferior() is None
                &&& (report matches StopReport::Stopped { .. } || report matches
                    StopReport::TraceFailed(_)) ==> final(self).spec_inferior() is Some
                &&& report matches StopReport::Stopped { rip, location, .. } ==> location
                    == (match (
                    old(self).spec_symbols().spec_function_at(rip),
                    old(self).spec_symbols().spec_line_at(rip),
                ) {
                    (Some(f), Some(l)) => Some((f, l)),
                    _ => None::<(String, Location)>,
                })
            },
    {
        let rip_opt = match &self.inferior {
            None => {
                return ContinueReport::NotRunning;
            },
            Some(inf) => inf.get_previous_ins(),
        };
        let hit_idx = match rip_opt {
            None => None,
            Some(rip) => self.breakpoints.find_index(rip),
        };
        match hit_idx {
            Some(i) => {
                proof {
                    lemma_index_of_unique(self.breakpoints@, rip_opt->Some_0, i as int);
                }
                let bp = *self.breakpoints.get(i);
                let bp_addr = bp.addr();
                let stepped = match &mut self.inferior {
                    Some(inf) => inf.step_breakpoint(bp_addr, bp.orig_byte()),
                    None => vstd::pervasive::unreached(),
                };
                if !stepped {
                    return ContinueReport::StepFailed { bp };
                }
                let report = self.resume_and_report();
                ContinueReport::Resumed { hit: Some(bp), report }
            },
            None => {
                let report = self.resume_and_report();
                ContinueReport::Resumed { hit: None, report }
            },
        }
    }

    /// Handles a backtrace command: walks the live tracee's stack and
    /// resolves each frame, innermost first.
    pub fn cmd_backtrace(&mut self) -> (r: BacktraceReport)
        requires
            old(self).wf(),
        ensures
            final(self).wf(),
            final(self).spec_symbols() == old(self).spec_symbols(),
            final(self).spec_breakpoints() == old(self).spec_breakpoints(),
            (old(self).spec_inferior() is None) <==> r == BacktraceReport::NotRunning,
            (old(self).spec_inferior() is Some) ==> final(self).spec_inferior() is Some,
            r matches BacktraceReport::Frames(frames) ==> 1 <= frames@.len()
                && frames@.last().function@ == "main"@ && (forall|i: int|
                0 <= i < frames@.len() - 1 ==> (#[trigger] frames@[i]).function@ != "main"@),
    {
        match &mut self.inferior {
            None => BacktraceReport::NotRunning,
            Some(inf) => match inf.backtrace(&self.symbols) {
                Ok(frames) => BacktraceReport::Frames(frames),
                Err(e) => BacktraceReport::Failed(e),
            },
        }
    }

    /// Handles a quit command: kills and reaps any live tracee.  The caller
    /// ends the session afterwards.
    pub fn cmd_quit(&mut self)
        requires
            old(self).wf(),
        ensures
            final(self).wf(),
            final(self).spec_symbols() == old(self).spec_symbols(),
            final(self).spec_breakpoints() == old(self).spec_breakpoints(),
            final(self).spec_inferior() is None,
    {
        self.prepare_run();
    }
}

} // verus!
