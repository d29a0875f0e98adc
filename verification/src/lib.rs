//! Front end of a user-mode AArch64 dynamic binary translator.
//!
//! The crate decodes raw 32-bit ARMv8-A instruction words into a typed
//! instruction enumeration and lowers each instruction into a small block of
//! intermediate representation (IR) whose entries name an explicit side-effect
//! destination (a register, the flags, memory, the program counter, a system
//! call).  A minimal guest-memory facade backs the loads and stores that the
//! lowered IR will perform at execution time.

pub mod bit_patterns;
pub mod bits;
pub mod compiler;
pub mod decode;
pub mod error;
pub mod instruction;
pub mod interrupt;
pub mod ir;
pub mod lowering;
pub mod memory_frame;
