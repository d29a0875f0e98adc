//! Runtime interrupts: the events an executor raises while evaluating
//! lowered IR blocks.  The translation front end never raises these itself;
//! they carry the payloads that `SystemCall`, `Exit` and memory faults
//! deliver out of the execution loop.

use crate::error::MMUError;
use vstd::prelude::*;

verus! {

/// An event that unwinds the execution loop, carrying its payload.
#[derive(Clone, Copy, Debug, PartialEq, Eq, Structural)]
pub enum Interrupt {
    /// An arithmetic result overflowed its IR type at evaluation time.
    IntegerOverflow,
    /// A raw interrupt with its number.
    Interrupt(usize),
    /// A guest breakpoint with its immediate.
    DebugBreakpoint(usize),
    /// A guest system call with its number.
    SystemCall(usize),
    /// Guest exit with its code.
    Exit(usize),
    /// A memory fault surfaced from the guest-memory facade.
    PageFault(MMUError),
    /// The executor must re-translate the current block.
    NeedRecompile,
}

} // verus!
