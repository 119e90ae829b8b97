//! Core of a command-driven native-process debugger: breakpoint bookkeeping,
//! instruction-byte patching, run/stop/resume policy and stack walking for a
//! single traced child process, plus a few small verified utility routines.
#![verifier::loop_isolation(false)]

pub mod breakpoint;
pub mod debugger;
pub mod debugger_command;
pub mod factor;
pub mod inferior;
pub mod parse;
pub mod patch;
pub mod symbols;
pub mod warmup;
