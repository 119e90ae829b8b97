//! The tracee: one traced child process, and the only code path that touches
//! its memory, registers and execution state.
//!
//! The raw tracing syscalls are reached through small trusted wrappers around
//! `nix`; everything above them — breakpoint patching, resume-past-trap
//! logic, status translation and the stack walk — is verified.

use vstd::prelude::*;
use crate::breakpoint::{bps_contain, BreakpointTable};
use crate::parse::str_eq;
use crate::patch::{align_addr_to_word, byte_of_word, replace_byte, TRAP_OPCODE, WORD_SIZE};
use crate::symbols::{Location, SymbolTable};

verus! {

broadcast use crate::breakpoint::BreakPoint::lemma_spec_new_fields;

/// Result of a resume/wait round: the process stopped on a signal at an
/// instruction pointer, exited with a code, or was terminated by a signal.
#[derive(Clone, Copy, PartialEq, Eq, Structural, Debug)]
pub enum Status {
    Stopped(i32, usize),
    Exited(i32),
    Signaled(i32),
}

/// A tracing operation's failure: the underlying syscall failed with an
/// errno, or the wait returned an event this debugger does not handle.
#[derive(Clone, Copy, PartialEq, Eq, Structural, Debug)]
pub enum TraceError {
    Errno(i32),
    UnexpectedEvent,
}

/// One state change reported by the OS for the traced child.
pub enum WaitEvent {
    Exited(i32),
    Signaled(i32),
    Stopped(i32),
    Other,
}

/// One resolved stack frame.
#[derive(PartialEq, Eq, Debug)]
pub struct Frame {
    pub function: String,
    pub file: String,
    pub line: usize,
}

/// Why a stack walk stopped without producing a backtrace.
#[derive(Clone, Copy, PartialEq, Eq, Structural, Debug)]
pub enum BacktraceError {
    /// Reading the register set failed with this errno.
    Regs(i32),
    /// No function or line covers this address.
    Unresolved(usize),
    /// Reading a stack word at this address failed.
    MemoryRead(usize),
    /// The frame chain did not reach the entry function within the cap.
    TooDeep,
}

/// Hard cap on walked stack frames, guarding against a corrupted or
/// unterminated frame-pointer chain.
pub const MAX_FRAMES: usize = 64;

/// A source of machine words from the tracee's address space.  The live
/// implementation reads the traced process's memory.
pub trait MemoryReader {
    /// The word at `addr`, or nothing if the address cannot be read.
    fn read_word(&mut self, addr: usize) -> Option<u64>;
}

/// Relies on nix::sys::ptrace::read: reads one word of the tracee's memory.
/// What it returns depends on the traced process's state, so nothing is
/// assumed about the value.
#[verifier::external_body]
fn ptrace_read_word(pid: i32, addr: usize) -> (r: Result<u64, i32>) {
    match nix::sys::ptrace::read(
        nix::unistd::Pid::from_raw(pid),
        addr as nix::sys::ptrace::AddressType,
    ) {
        Ok(w) => Ok(w as u64),
        Err(e) => Err(e as i32),
    }
}

/// Relies on nix::sys::ptrace::write: writes one word of the tracee's memory.
#[verifier::external_body]
fn ptrace_write_word(pid: i32, addr: usize, word: u64) -> (r: Result<(), i32>) {
    match nix::sys::ptrace::write(
        nix::unistd::Pid::from_raw(pid),
        addr as nix::sys::ptrace::AddressType,
        word as i64,
    ) {
        Ok(()) => Ok(()),
        Err(e) => Err(e as i32),
    }
}

/// Relies on nix::sys::ptrace::cont: resumes the stopped tracee, optionally
/// delivering a signal.
#[verifier::external_body]
fn ptrace_cont(pid: i32, signal: Option<i32>) -> (r: Result<(), i32>) {
    let sig = match signal {
        None => None,
        Some(v) => match nix::sys::signal::Signal::try_from(v) {
            Ok(s) => Some(s),
            Err(e) => return Err(e as i32),
        },
    };
    match nix::sys::ptrace::cont(nix::unistd::Pid::from_raw(pid), sig) {
        Ok(()) => Ok(()),
        Err(e) => Err(e as i32),
    }
}

/// Relies on nix::sys::ptrace::step: executes exactly one instruction of the
/// stopped tracee.
#[verifier::external_body]
fn ptrace_step(pid: i32) -> (r: Result<(), i32>) {
    match nix::sys::ptrace::step(nix::unistd::Pid::from_raw(pid), None) {
        Ok(()) => Ok(()),
        Err(e) => Err(e as i32),
    }
}

/// Relies on nix::sys::ptrace::getregs: fetches the register set and hands
/// out the instruction pointer and frame base pointer.
#[verifier::external_body]
fn ptrace_get_ip_and_base(pid: i32) -> (r: Result<(u64, u64), i32>) {
    match nix::sys::ptrace::getregs(nix::unistd::Pid::from_raw(pid)) {
        Ok(regs) => Ok((regs.rip, regs.rbp)),
        Err(e) => Err(e as i32),
    }
}

/// Relies on nix::sys::ptrace::getregs and nix::sys::ptrace::setregs: the
/// register set offers no single-register write, so setting the instruction
/// pointer reads the registers, changes that one field and writes them back.
#[verifier::external_body]
fn ptrace_set_ip(pid: i32, ip: u64) -> (r: Result<(), i32>) {
    let mut regs = match nix::sys::ptrace::getregs(nix::unistd::Pid::from_raw(pid)) {
        Ok(regs) => regs,
        Err(e) => return Err(e as i32),
    };
    regs.rip = ip;
    match nix::sys::ptrace::setregs(nix::unistd::Pid::from_raw(pid), regs) {
        Ok(()) => Ok(()),
        Err(e) => Err(e as i32),
    }
}

/// Relies on nix::sys::wait::waitpid: blocks until the child changes state
/// and tells the kinds of state change apart.
#[verifier::external_body]
fn wait_for_event(pid: i32) -> (r: Result<WaitEvent, i32>) {
    match nix::sys::wait::waitpid(nix::unistd::Pid::from_raw(pid), None) {
        Ok(nix::sys::wait::WaitStatus::Exited(_, code)) => Ok(WaitEvent::Exited(code)),
        Ok(nix::sys::wait::WaitStatus::Signaled(_, sig, _)) => Ok(WaitEvent::Signaled(sig as i32)),
        Ok(nix::sys::wait::WaitStatus::Stopped(_, sig)) => Ok(WaitEvent::Stopped(sig as i32)),
        Ok(_) => Ok(WaitEvent::Other),
        Err(e) => Err(e as i32),
    }
}

/// Relies on nix::sys::signal::kill with SIGKILL: best-effort termination;
/// failure (the process is already gone) is deliberately ignored.
#[verifier::external_body]
fn send_kill(pid: i32) {
    let _ = nix::sys::signal::kill(
        nix::unistd::Pid::from_raw(pid),
        nix::sys::signal::Signal::SIGKILL,
    );
}

/// One traced child process.
pub struct Inferior {
    pid: i32,
    last_rip: Option<usize>,
    /// Addresses where a trap-byte install has succeeded in this process's
    /// lifetime, in install order.
    installed: Ghost<Seq<usize>>,
}

impl Inferior {
    /// The traced process's id.
    pub closed spec fn spec_pid(self) -> i32 {
        self.pid
    }

    /// The instruction pointer observed at the last stop, if any.
    pub closed spec fn spec_last_rip(self) -> Option<usize> {
        self.last_rip
    }

    /// Addresses successfully patched with the trap opcode, in order.
    pub closed spec fn spec_installed(self) -> Seq<usize> {
        self.installed@
    }

    /// The address of the instruction that caused the last stop: the
    /// processor advances past the single-byte trap before reporting, so
    /// this is the observed instruction pointer minus the trap length.
    pub open spec fn spec_previous_ins(self) -> Option<usize> {
        match self.spec_last_rip() {
            Some(rip) => if rip >= 1 {
                Some((rip - 1) as usize)
            } else {
                None
            },
            None => None,
        }
    }

    /// Takes control of a freshly spawned traced child and patches every
    /// breakpoint of the table into its memory.  A failing patch is recorded
    /// in the returned address list and does not abort the attach; the
    /// successfully read original bytes are recorded in the table.
    pub fn new(pid: i32, breakpoints: &mut BreakpointTable) -> (r: (Inferior, Vec<usize>))
        requires
            old(breakpoints).wf(),
        ensures
            final(breakpoints).wf(),
            final(breakpoints)@.len() == old(breakpoints)@.len(),
            forall|i: int|
                0 <= i < old(breakpoints)@.len() ==> ((#[trigger] final(breakpoints)@[i]).spec_addr()
                    == old(breakpoints)@[i].spec_addr() && final(breakpoints)@[i].spec_id() == old(
                    breakpoints,
                )@[i].spec_id()),
            r.0.spec_pid() == pid,
            r.0.spec_last_rip() is None,
            // every table entry is attempted exactly once
            r.0.spec_installed().len() + r.1@.len() == old(breakpoints)@.len(),
            // a reported failure names a table address
            forall|j: int|
                0 <= j < r.1@.len() ==> bps_contain(old(breakpoints)@, #[trigger] r.1@[j]),
            // when no patch failed, a trap byte went in at every table
            // address, in table order
            r.1@.len() == 0 ==> r.0.spec_installed() =~= Seq::new(
                old(breakpoints)@.len(),
                |i: int| old(breakpoints)@[i].spec_addr(),
            ),
    {
        let mut inf = Inferior { pid, last_rip: None, installed: Ghost(Seq::empty()) };
        let mut failures: Vec<usize> = Vec::new();
        let ghost orig = breakpoints@;
        let mut i: usize = 0;
        while i < breakpoints.len()
            invariant
                i <= orig.len(),
                breakpoints.wf(),
                breakpoints@.len() == orig.len(),
                forall|k: int|
                    0 <= k < orig.len() ==> (#[trigger] breakpoints@[k]).spec_addr()
                        == orig[k].spec_addr() && breakpoints@[k].spec_id() == orig[k].spec_id(),
                inf.spec_pid() == pid,
                inf.spec_last_rip() is None,
                inf.spec_installed().len() + failures@.len() == i,
                forall|j: int| 0 <= j < failures@.len() ==> bps_contain(orig, #[trigger] failures@[j]),
                failures@.len() == 0 ==> inf.spec_installed() =~= Seq::new(
                    i as nat,
                    |k: int| orig[k].spec_addr(),
                ),
            decreases orig.len() - i,
        {
            let addr = breakpoints.get(i).addr();
            assert(bps_contain(orig, addr));
            match inf.write_breakpoint(addr) {
                Ok(byte) => {
                    breakpoints.record_byte(i, byte);
                },
                Err(_) => {
                    failures.push(addr);
                },
            }
            i = i + 1;
        }
        (inf, failures)
    }

    /// Reads the word containing `addr`, replaces the byte at `addr` with
    /// `val`, writes the word back and returns the byte that was there.
    /// Every other byte of the word is preserved by construction
    /// (`patch::replace_byte`).
    fn write_byte(&mut self, addr: usize, val: u8) -> (r: Result<u8, TraceError>)
        ensures
            *final(self) == *old(self),
    {
        let aligned = align_addr_to_word(addr);
        let off = addr - aligned;
        let word = match ptrace_read_word(self.pid, aligned) {
            Ok(w) => w,
            Err(e) => return Err(TraceError::Errno(e)),
        };
        let orig = byte_of_word(word, off);
        let updated = replace_byte(word, off, val);
        match ptrace_write_word(self.pid, aligned, updated) {
            Ok(()) => Ok(orig),
            Err(e) => Err(TraceError::Errno(e)),
        }
    }

    /// Installs the trap opcode at `addr` and returns the original byte.
    pub fn write_breakpoint(&mut self, addr: usize) -> (r: Result<u8, TraceError>)
        ensures
            final(self).spec_pid() == old(self).spec_pid(),
            final(self).spec_last_rip() == old(self).spec_last_rip(),
            r is Ok ==> final(self).spec_installed() =~= old(self).spec_installed().push(addr),
            r is Err ==> final(self).spec_installed() == old(self).spec_installed(),
    {
        let r = self.write_byte(addr, TRAP_OPCODE);
        if r.is_ok() {
            proof {
                self.installed@ = self.installed@.push(addr);
            }
        }
        r
    }

    /// Blocks until the child changes state and translates the result.
    /// A stop fetches and records the instruction pointer.
    pub fn wait(&mut self) -> (r: Result<Status, TraceError>)
        ensures
            final(self).spec_pid() == old(self).spec_pid(),
            final(self).spec_installed() == old(self).spec_installed(),
            match r {
                Ok(Status::Stopped(_, rip)) => final(self).spec_last_rip() == Some(rip),
                _ => final(self).spec_last_rip() == old(self).spec_last_rip(),
            },
    {
        match wait_for_event(self.pid) {
            Err(e) => Err(TraceError::Errno(e)),
            Ok(WaitEvent::Exited(code)) => Ok(Status::Exited(code)),
            Ok(WaitEvent::Signaled(sig)) => Ok(Status::Signaled(sig)),
            Ok(WaitEvent::Stopped(sig)) => match ptrace_get_ip_and_base(self.pid) {
                Err(e) => Err(TraceError::Errno(e)),
                Ok((rip, _)) => {
                    let rip_usize = rip as usize;
                    self.last_rip = Some(rip_usize);
                    Ok(Status::Stopped(sig, rip_usize))
                },
            },
            Ok(WaitEvent::Other) => Err(TraceError::UnexpectedEvent),
        }
    }

    /// Resumes the stopped child, optionally delivering a signal, and waits
    /// for its next state change.
    pub fn continue_run(&mut self, signal: Option<i32>) -> (r: Result<Status, TraceError>)
        ensures
            final(self).spec_pid() == old(self).spec_pid(),
            final(self).spec_installed() == old(self).spec_installed(),
            match r {
                Ok(Status::Stopped(_, rip)) => final(self).spec_last_rip() == Some(rip),
                _ => final(self).spec_last_rip() == old(self).spec_last_rip(),
            },
    {
        match ptrace_cont(self.pid, signal) {
            Err(e) => Err(TraceError::Errno(e)),
            Ok(()) => self.wait(),
        }
    }

    /// Steps the child past a breakpoint it is stopped at: restores the
    /// original byte, rewinds the instruction pointer onto the breakpoint if
    /// it has advanced past the trap, executes one instruction and puts the
    /// trap back.  Returns whether every step succeeded.
    pub fn step_breakpoint(&mut self, addr: usize, orig_byte: u8) -> (r: bool)
        ensures
            final(self).spec_pid() == old(self).spec_pid(),
            final(self).spec_installed() == old(self).spec_installed(),
            final(self).spec_last_rip() == old(self).spec_last_rip(),
    {
        match self.write_byte(addr, orig_byte) {
            Err(_) => return false,
            Ok(_) => {},
        }
        let target = addr as u64;
        match ptrace_get_ip_and_base(self.pid) {
            Err(_) => return false,
            Ok((rip, _)) => {
                if rip > target && rip - 1 == target {
                    match ptrace_set_ip(self.pid, target) {
                        Err(_) => return false,
                        Ok(()) => {},
                    }
                }
            },
        }
        match ptrace_step(self.pid) {
            Err(_) => return false,
            Ok(()) => {},
        }
        match wait_for_event(self.pid) {
            Ok(WaitEvent::Stopped(_)) => {},
            _ => return false,
        }
        match self.write_byte(addr, TRAP_OPCODE) {
            Err(_) => false,
            Ok(_) => true,
        }
    }

    /// The address of the instruction that caused the last stop, if any:
    /// one byte before the observed instruction pointer.  This is what the
    /// session compares against breakpoint addresses.
    pub fn get_previous_ins(&self) -> (r: Option<usize>)
        ensures
            r == self.spec_previous_ins(),
    {
        match self.last_rip {
            Some(rip) => if rip >= 1 {
                Some(rip - 1)
            } else {
                None
            },
            None => None,
        }
    }

    /// The traced process's id.
    pub fn pid(&self) -> (r: i32)
        ensures
            r == self.spec_pid(),
    {
        self.pid
    }

    /// Terminates and reaps the child, best-effort: killing an already-dead
    /// process is not an error, and a failed reap is ignored.
    pub fn kill(&mut self)
        ensures
            final(self).spec_pid() == old(self).spec_pid(),
    {
        send_kill(self.pid);
        let _ = self.wait();
    }

    /// Walks the stack from the current stop and resolves each frame,
    /// innermost first.
    pub fn backtrace(&mut self, symbols: &SymbolTable) -> (r: Result<Vec<Frame>, BacktraceError>)
        ensures
            r matches Ok(frames) ==> 1 <= frames@.len() <= MAX_FRAMES && frames@.last().function@
                == "main"@ && (forall|i: int|
                0 <= i < frames@.len() - 1 ==> (#[trigger] frames@[i]).function@ != "main"@),
    {
        let (rip, rbp) = match ptrace_get_ip_and_base(self.pid) {
            Err(e) => return Err(BacktraceError::Regs(e)),
            Ok(regs) => regs,
        };
        let rip_usize = rip as usize;
        let rbp_usize = rbp as usize;
        backtrace_walk(symbols, rip_usize, rbp_usize, self)
    }
}

impl MemoryReader for Inferior {
    /// Reads one word of the traced process's memory.
    fn read_word(&mut self, addr: usize) -> Option<u64> {
        match ptrace_read_word(self.pid, addr) {
            Ok(w) => Some(w),
            Err(_) => None,
        }
    }
}

/// Walks the frame-pointer chain starting at instruction pointer `rip` and
/// frame base `rbp`, resolving each visited address to a function and source
/// line and stopping after the frame that resolves to the entry function
/// `main`.  Frames come out innermost first.  The walk fails if an address
/// cannot be resolved, a stack word cannot be read, or the chain does not
/// reach `main` within `MAX_FRAMES` frames.
pub fn backtrace_walk<M: MemoryReader>(
    symbols: &SymbolTable,
    rip: usize,
    rbp: usize,
    mem: &mut M,
) -> (r: Result<Vec<Frame>, BacktraceError>)
    ensures
        r matches Ok(frames) ==> 1 <= frames@.len() <= MAX_FRAMES,
        // the innermost frame is the resolution of the stop address
        r matches Ok(frames) ==> symbols.spec_function_at(rip) == Some(frames@[0].function)
            && symbols.spec_line_at(rip) == Some(
            Location { file: frames@[0].file, line: frames@[0].line },
        ),
        // the walk stops exactly at the entry function
        r matches Ok(frames) ==> frames@.last().function@ == "main"@ && (forall|i: int|
            0 <= i < frames@.len() - 1 ==> (#[trigger] frames@[i]).function@ != "main"@),
        // a stop inside the entry function yields exactly that one frame
        (symbols.spec_function_at(rip) matches Some(n) && n@ == "main"@ && symbols.spec_line_at(
            rip,
        ) is Some) ==> (r matches Ok(frames) && frames@.len() == 1),
        // an unresolvable stop address yields no backtrace
        (symbols.spec_function_at(rip) is None || symbols.spec_line_at(rip) is None) ==> r == Err::<
            Vec<Frame>,
            BacktraceError,
        >(BacktraceError::Unresolved(rip)),
{
    let mut frames: Vec<Frame> = Vec::new();
    let mut cur_rip: usize = rip;
    let mut cur_rbp: usize = rbp;
    while frames.len() < MAX_FRAMES
        invariant
            frames@.len() <= MAX_FRAMES,
            frames@.len() == 0 ==> cur_rip == rip,
            frames@.len() >= 1 ==> symbols.spec_function_at(rip) == Some(frames@[0].function)
                && symbols.spec_line_at(rip) == Some(
                Location { file: frames@[0].file, line: frames@[0].line },
            ),
            forall|i: int| 0 <= i < frames@.len() ==> (#[trigger] frames@[i]).function@ != "main"@,
        decreases MAX_FRAMES - frames@.len(),
    {
        let function = match symbols.get_function_from_addr(cur_rip) {
            None => return Err(BacktraceError::Unresolved(cur_rip)),
            Some(f) => f,
        };
        let location = match symbols.get_line_from_addr(cur_rip) {
            None => return Err(BacktraceError::Unresolved(cur_rip)),
            Some(l) => l,
        };
        let is_main = str_eq(function.as_str(), "main");
        frames.push(Frame { function, file: location.file, line: location.line });
        if is_main {
            return Ok(frames);
        }
        let ret_slot = match cur_rbp.checked_add(WORD_SIZE) {
            None => return Err(BacktraceError::MemoryRead(cur_rbp)),
            Some(a) => a,
        };
        let new_rip = match mem.read_word(ret_slot) {
            None => return Err(BacktraceError::MemoryRead(ret_slot)),
            Some(w) => w,
        };
        let new_rbp = match mem.read_word(cur_rbp) {
            None => return Err(BacktraceError::MemoryRead(cur_rbp)),
            Some(w) => w,
        };
        cur_rip = new_rip as usize;
        cur_rbp = new_rbp as usize;
    }
    Err(BacktraceError::TooDeep)
}

} // verus!
