//! Error values that cross this crate's boundary: decoder and lowerer
//! failures, and the faults the guest-memory facade can raise.

use crate::instruction::AArch64Instr;
use vstd::prelude::*;

verus! {

/// The access direction that raised a memory fault.
#[derive(Clone, Copy, Debug, PartialEq, Eq, Structural)]
pub enum AccessKind {
    Read,
    Write,
}

/// A fault from the guest-memory facade.
#[derive(Clone, Copy, Debug, PartialEq, Eq, Structural)]
pub enum MMUError {
    /// No page is mapped at the given guest address.
    PageFault(usize, AccessKind),
}

/// A failure of the translation front end.  The decoder only raises
/// `UndefinedEncoding`; the lowerer raises `NotImplemented` for decodable
/// opcodes it has no lowering for, and `UndefinedEncoding` for operand
/// values the architecture reserves.
#[derive(Clone, Copy, Debug, PartialEq, Eq, Structural)]
pub enum TranslateError {
    /// The 32-bit word matches no registered encoding row.
    UndefinedEncoding(u32),
    /// The opcode decodes but has no lowering.
    NotImplemented(AArch64Instr),
}

} // verus!
