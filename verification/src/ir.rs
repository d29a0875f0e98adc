//! The IR data model: type tags, virtual register identifiers, operands,
//! computation nodes, side-effect destinations, and per-instruction blocks.
//!
//! An [`IrBlock`] is the unit the lowerer emits for one guest instruction: an
//! ordered list of `(Ir, BlockDestination)` pairs that an external executor
//! commits in order, plus the guest instruction length in bytes.

use vstd::prelude::*;

verus! {

/// Type tag carried by every IR value.
#[derive(Clone, Copy, Debug, PartialEq, Eq, Structural)]
pub enum Type {
    I8,
    U8,
    I16,
    U16,
    I32,
    U32,
    I64,
    U64,
    Void,
    Bool,
}

impl Type {
    /// Width of a value of this type, in bytes.
    pub open spec fn spec_size(self) -> u64 {
        match self {
            Type::I8 | Type::U8 => 1,
            Type::I16 | Type::U16 => 2,
            Type::I32 | Type::U32 => 4,
            Type::I64 | Type::U64 => 8,
            Type::Void => 0,
            Type::Bool => 1,
        }
    }

    /// Returns the width of a value of this type, in bytes.
    #[verifier::when_used_as_spec(spec_size)]
    pub fn size(self) -> (r: u64)
        ensures
            r == self.spec_size(),
    {
        match self {
            Type::I8 | Type::U8 => 1,
            Type::I16 | Type::U16 => 2,
            Type::I32 | Type::U32 => 4,
            Type::I64 | Type::U64 => 8,
            Type::Void => 0,
            Type::Bool => 1,
        }
    }
}

/// Identifier of a virtual register in the executor's register file.
#[derive(Clone, Copy, Debug, PartialEq, Eq, Structural)]
pub struct RegId(pub u8);

/// An input of an IR computation.
#[derive(Debug, PartialEq, Eq)]
pub enum Operand {
    /// A constant bit pattern, interpreted according to the type tag.
    Immediate(Type, u64),
    /// A read of a virtual register, `ty.size()` bytes wide.
    Register(Type, RegId),
    /// A nested computation whose value feeds the parent node.
    Ir(Box<Ir>),
    /// A nested computation evaluated for its side effects; its value is void.
    VoidIr(Box<Ir>),
    /// The current guest program counter (read-only).
    Ip,
    /// The guest NZCV flag word (read-only).
    Flag,
}

impl Operand {
    /// Builds an immediate operand.
    pub fn imm(ty: Type, value: u64) -> (r: Operand)
        ensures
            r == Operand::Immediate(ty, value),
    {
        Operand::Immediate(ty, value)
    }

    /// Builds a register-read operand.
    pub fn reg(ty: Type, id: RegId) -> (r: Operand)
        ensures
            r == Operand::Register(ty, id),
    {
        Operand::Register(ty, id)
    }

    /// Boxes a nested computation as an operand.
    pub fn ir(ir: Ir) -> (r: Operand)
        ensures
            r == Operand::Ir(Box::new(ir)),
    {
        Operand::Ir(Box::new(ir))
    }

    /// Boxes a nested computation evaluated only for its side effects.
    pub fn void_ir(ir: Ir) -> (r: Operand)
        ensures
            r == Operand::VoidIr(Box::new(ir)),
    {
        Operand::VoidIr(Box::new(ir))
    }
}

/// One IR computation node.
#[derive(Debug, PartialEq, Eq)]
pub enum Ir {
    /// The value of the operand itself.
    Value(Operand),
    /// No computation and no side effect.
    Nop,
    /// `a + b`.
    Add(Type, Operand, Operand),
    /// `a - b`.
    Sub(Type, Operand, Operand),
    /// `a + b`, additionally updating the NZCV flags.
    Addc(Type, Operand, Operand),
    /// `a - b`, additionally updating the NZCV flags.
    Subc(Type, Operand, Operand),
    /// Bitwise `a & b`.
    And(Type, Operand, Operand),
    /// Bitwise `a | b`.
    Or(Type, Operand, Operand),
    /// Bitwise `a ^ b`.
    Xor(Type, Operand, Operand),
    /// Rotate `a` right by `b` bits within the type width.
    Rotr(Type, Operand, Operand),
    /// Shift `a` left by `b` bits.
    Shl(Type, Operand, Operand),
    /// Logical (zero-filling) shift of `a` right by `b` bits.
    LShr(Type, Operand, Operand),
    /// Arithmetic (sign-filling) shift of `a` right by `b` bits.
    AShr(Type, Operand, Operand),
    /// Reinterpretation of the operand's bits at the given type.
    BitCast(Type, Operand),
    /// Zero extension of the operand to the given type.
    ZextCast(Type, Operand),
    /// Sign extension of the operand to the given type.
    SextCast(Type, Operand),
    /// `a == b`, of type `Bool`.
    CmpEq(Type, Operand, Operand),
    /// `a != b`, of type `Bool`.
    CmpNe(Type, Operand, Operand),
    /// `if cond { then } else { otherwise }`; both arms share the result type.
    If(Type, Operand, Operand, Operand),
    /// A `ty.size()`-byte little-endian guest-memory read at the address.
    Load(Type, Operand),
}

/// Where the value of one IR entry is committed by the executor.
#[derive(Clone, Copy, Debug, PartialEq, Eq, Structural)]
pub enum BlockDestination {
    /// Discard the value; side effects (such as flag updates) still apply.
    Discard,
    /// Write to a general-purpose virtual register.
    Gpr(RegId),
    /// Write to a floating-point virtual register.
    Fpr(RegId),
    /// Write to the guest program counter.
    Ip,
    /// Write to the guest NZCV flag word.
    Flags,
    /// Store at the address `register + offset`.
    MemoryRel(RegId, i64),
    /// Deliver the value to the executor as a system-call number.
    SystemCall,
    /// Terminate execution with the value as the exit code.
    Exit,
}

/// The IR lowered from one guest instruction: an ordered list of
/// computation/destination pairs and the guest instruction length in bytes.
#[derive(Debug, PartialEq, Eq)]
pub struct IrBlock {
    items: Vec<(Ir, BlockDestination)>,
    instruction_size: usize,
}

impl View for IrBlock {
    type V = Seq<(Ir, BlockDestination)>;

    closed spec fn view(&self) -> Seq<(Ir, BlockDestination)> {
        self.items@
    }
}

impl IrBlock {
    /// Creates an empty block for a guest instruction of the given byte length.
    pub fn new(instruction_size: usize) -> (r: IrBlock)
        ensures
            r@ =~= Seq::<(Ir, BlockDestination)>::empty(),
            r.instruction_size() == instruction_size,
    {
        IrBlock { items: Vec::new(), instruction_size }
    }

    /// The guest instruction length in bytes that this block stands for.
    pub closed spec fn spec_instruction_size(&self) -> usize {
        self.instruction_size
    }

    /// Returns the guest instruction length in bytes.
    #[verifier::when_used_as_spec(spec_instruction_size)]
    pub fn instruction_size(&self) -> (r: usize)
        ensures
            r == self.spec_instruction_size(),
    {
        self.instruction_size
    }

    /// Appends one computation/destination pair at the end of the block.
    pub fn append(&mut self, ir: Ir, dest: BlockDestination)
        ensures
            final(self)@ =~= old(self)@.push((ir, dest)),
            final(self).instruction_size() == old(self).instruction_size(),
    {
        self.items.push((ir, dest));
    }

    /// The number of entries in the block.
    pub fn len(&self) -> (r: usize)
        ensures
            r == self@.len(),
    {
        self.items.len()
    }

    /// Returns a reference to the entry at `i`.
    pub fn entry(&self, i: usize) -> (r: &(Ir, BlockDestination))
        requires
            i < self@.len(),
        ensures
            *r == self@[i as int],
    {
        &self.items[i]
    }
}

} // verus!
