//! The typed AArch64 instruction form: one operand record per encoding
//! class, with field names mirroring the ARM Architecture Reference Manual,
//! and a flat enumeration of the opcodes the decoder can return.
//!
//! Each record stores its fields in the smallest unsigned type that holds
//! them; a record is well formed when every field fits the bit width of the
//! encoding it was extracted from.

use vstd::prelude::*;

verus! {

/// Move-wide fields: `hw` (16-bit chunk index), `imm16`, destination `rd`.
#[derive(Clone, Copy, Debug, PartialEq, Eq, Structural)]
pub struct HwImm16Rd {
    pub hw: u8,
    pub imm16: u16,
    pub rd: u8,
}

impl HwImm16Rd {
    /// All fields fit their encoded widths.
    pub open spec fn wf(self) -> bool {
        self.hw < 4 && self.rd < 32
    }
}

/// PC-relative addressing fields: low and high immediate halves and `rd`.
#[derive(Clone, Copy, Debug, PartialEq, Eq, Structural)]
pub struct PcRelAddressing {
    pub immlo: u8,
    pub immhi: u32,
    pub rd: u8,
}

impl PcRelAddressing {
    /// All fields fit their encoded widths.
    pub open spec fn wf(self) -> bool {
        self.immlo < 4 && self.immhi < 0x80000 && self.rd < 32
    }
}

/// Shifted-register operand fields: shift kind, `rm`, shift amount, `rn`, `rd`.
#[derive(Clone, Copy, Debug, PartialEq, Eq, Structural)]
pub struct ShiftRmImm6RnRd {
    pub shift: u8,
    pub rm: u8,
    pub imm6: u8,
    pub rn: u8,
    pub rd: u8,
}

impl ShiftRmImm6RnRd {
    /// All fields fit their encoded widths.
    pub open spec fn wf(self) -> bool {
        self.shift < 4 && self.rm < 32 && self.imm6 < 64 && self.rn < 32 && self.rd < 32
    }
}

/// Shifted-immediate arithmetic fields: `sh` (LSL #12 flag), `imm12`, `rn`, `rd`.
#[derive(Clone, Copy, Debug, PartialEq, Eq, Structural)]
pub struct ShImm12RnRd {
    pub sh: u8,
    pub imm12: u16,
    pub rn: u8,
    pub rd: u8,
}

impl ShImm12RnRd {
    /// All fields fit their encoded widths.
    pub open spec fn wf(self) -> bool {
        self.sh < 2 && self.imm12 < 4096 && self.rn < 32 && self.rd < 32
    }
}

/// Load/store register (immediate) fields.  `opc` holds bits 25..22 of the
/// word: bit 24 separates the unsigned-offset form from the pre/post-indexed
/// forms, whose index mode then sits in the low bits of `imm12`.
#[derive(Clone, Copy, Debug, PartialEq, Eq, Structural)]
pub struct SizeImm12RnRt {
    pub size: u8,
    pub opc: u8,
    pub imm12: u16,
    pub rn: u8,
    pub rt: u8,
}

impl SizeImm12RnRt {
    /// All fields fit their encoded widths.
    pub open spec fn wf(self) -> bool {
        self.size < 4 && self.opc < 16 && self.imm12 < 4096 && self.rn < 32 && self.rt < 32
    }
}

/// A 19-bit branch/literal offset together with the transfer register `rt`.
#[derive(Clone, Copy, Debug, PartialEq, Eq, Structural)]
pub struct Imm19Rt {
    pub imm19: u32,
    pub rt: u8,
}

impl Imm19Rt {
    /// All fields fit their encoded widths.
    pub open spec fn wf(self) -> bool {
        self.imm19 < 0x80000 && self.rt < 32
    }
}

/// Load/store register pair fields: index mode `o` (bits 25..23), scaled
/// `imm7` offset, second register `rt2`, base `rn`, first register `rt`.
#[derive(Clone, Copy, Debug, PartialEq, Eq, Structural)]
pub struct LoadStoreRegPair {
    pub o: u8,
    pub imm7: u8,
    pub rt2: u8,
    pub rn: u8,
    pub rt: u8,
}

impl LoadStoreRegPair {
    /// All fields fit their encoded widths.
    pub open spec fn wf(self) -> bool {
        self.o < 8 && self.imm7 < 128 && self.rt2 < 32 && self.rn < 32 && self.rt < 32
    }
}

/// Logical (immediate) fields: `n`, rotation `immr`, mask length `imms`, `rn`, `rd`.
#[derive(Clone, Copy, Debug, PartialEq, Eq, Structural)]
pub struct LogicalImm {
    pub n: u8,
    pub immr: u8,
    pub imms: u8,
    pub rn: u8,
    pub rd: u8,
}

impl LogicalImm {
    /// All fields fit their encoded widths.
    pub open spec fn wf(self) -> bool {
        self.n < 2 && self.immr < 64 && self.imms < 64 && self.rn < 32 && self.rd < 32
    }
}

/// Bitfield-move fields: `n`, rotation `immr`, mask length `imms`, `rn`, `rd`.
#[derive(Clone, Copy, Debug, PartialEq, Eq, Structural)]
pub struct Bitfield {
    pub n: u8,
    pub immr: u8,
    pub imms: u8,
    pub rn: u8,
    pub rd: u8,
}

impl Bitfield {
    /// All fields fit their encoded widths.
    pub open spec fn wf(self) -> bool {
        self.n < 2 && self.immr < 64 && self.imms < 64 && self.rn < 32 && self.rd < 32
    }
}

/// A 26-bit unconditional branch offset, in words.
#[derive(Clone, Copy, Debug, PartialEq, Eq, Structural)]
pub struct Imm26 {
    pub imm26: u32,
}

impl Imm26 {
    /// The field fits its encoded width.
    pub open spec fn wf(self) -> bool {
        self.imm26 < 0x4000000
    }
}

/// A 19-bit conditional branch offset and its condition code.
#[derive(Clone, Copy, Debug, PartialEq, Eq, Structural)]
pub struct Imm19Cond {
    pub imm19: u32,
    pub cond: u8,
}

impl Imm19Cond {
    /// All fields fit their encoded widths.
    pub open spec fn wf(self) -> bool {
        self.imm19 < 0x80000 && self.cond < 16
    }
}

/// An unconditional register branch: the target register `rn`.
#[derive(Clone, Copy, Debug, PartialEq, Eq, Structural)]
pub struct UncondBranchReg {
    pub rn: u8,
}

impl UncondBranchReg {
    /// The field fits its encoded width.
    pub open spec fn wf(self) -> bool {
        self.rn < 32
    }
}

/// Conditional-compare (immediate) fields: `imm5`, condition, `rn`, fallback `nzcv`.
#[derive(Clone, Copy, Debug, PartialEq, Eq, Structural)]
pub struct CondCmpImm {
    pub imm5: u8,
    pub cond: u8,
    pub rn: u8,
    pub nzcv: u8,
}

impl CondCmpImm {
    /// All fields fit their encoded widths.
    pub open spec fn wf(self) -> bool {
        self.imm5 < 32 && self.cond < 16 && self.rn < 32 && self.nzcv < 16
    }
}

/// Conditional-select fields: `rm`, condition, `rn`, `rd`.
#[derive(Clone, Copy, Debug, PartialEq, Eq, Structural)]
pub struct RmCondRnRd {
    pub rm: u8,
    pub cond: u8,
    pub rn: u8,
    pub rd: u8,
}

impl RmCondRnRd {
    /// All fields fit their encoded widths.
    pub open spec fn wf(self) -> bool {
        self.rm < 32 && self.cond < 16 && self.rn < 32 && self.rd < 32
    }
}

/// Exception-generation fields: the 16-bit immediate payload.
#[derive(Clone, Copy, Debug, PartialEq, Eq, Structural)]
pub struct ExceptionGen {
    pub imm16: u16,
}

impl ExceptionGen {
    /// Every 16-bit payload is well formed.
    pub open spec fn wf(self) -> bool {
        true
    }
}

/// Extended-register arithmetic fields: `rm`, extension `option`, left shift
/// `imm3`, `rn`, `rd`.
#[derive(Clone, Copy, Debug, PartialEq, Eq, Structural)]
pub struct AddSubtractExtReg {
    pub rm: u8,
    pub option: u8,
    pub imm3: u8,
    pub rn: u8,
    pub rd: u8,
}

impl AddSubtractExtReg {
    /// All fields fit their encoded widths.
    pub open spec fn wf(self) -> bool {
        self.rm < 32 && self.option < 8 && self.imm3 < 8 && self.rn < 32 && self.rd < 32
    }
}

/// System-register move fields: the system-register address `(o0, op1, crn,
/// crm, op2)` and the transfer register `rt`.
#[derive(Clone, Copy, Debug, PartialEq, Eq, Structural)]
pub struct SysRegMov {
    pub o0: u8,
    pub op1: u8,
    pub crn: u8,
    pub crm: u8,
    pub op2: u8,
    pub rt: u8,
}

impl SysRegMov {
    /// All fields fit their encoded widths.
    pub open spec fn wf(self) -> bool {
        self.o0 < 2 && self.op1 < 8 && self.crn < 16 && self.crm < 16 && self.op2 < 8 && self.rt
            < 32
    }
}

/// Load/store register (register offset) fields: `size`, offset register
/// `rm`, extension `option`, scaling flag `s`, base `rn`, transfer `rt`.
#[derive(Clone, Copy, Debug, PartialEq, Eq, Structural)]
pub struct LoadStoreRegRegOffset {
    pub size: u8,
    pub rm: u8,
    pub option: u8,
    pub s: u8,
    pub rn: u8,
    pub rt: u8,
}

impl LoadStoreRegRegOffset {
    /// All fields fit their encoded widths.
    pub open spec fn wf(self) -> bool {
        self.size < 4 && self.rm < 32 && self.option < 8 && self.s < 2 && self.rn < 32 && self.rt
            < 32
    }
}

/// One decoded AArch64 instruction: an opcode tag carrying its operand record.
#[derive(Clone, Copy, Debug, PartialEq, Eq, Structural)]
pub enum AArch64Instr {
    MovzVar32(HwImm16Rd),
    MovzVar64(HwImm16Rd),
    Adr(PcRelAddressing),
    Adrp(PcRelAddressing),
    OrrShiftedReg32(ShiftRmImm6RnRd),
    OrrShiftedReg64(ShiftRmImm6RnRd),
    LdrImm32(SizeImm12RnRt),
    LdrImm64(SizeImm12RnRt),
    StrImm32(SizeImm12RnRt),
    StrImm64(SizeImm12RnRt),
    LdrLitVar64(Imm19Rt),
    StpVar32(LoadStoreRegPair),
    StpVar64(LoadStoreRegPair),
    LdrbImm(SizeImm12RnRt),
    LdrhImm(SizeImm12RnRt),
    LdrReg32(LoadStoreRegRegOffset),
    LdrReg64(LoadStoreRegRegOffset),
    AddImm64(ShImm12RnRd),
    AddShiftedReg64(ShiftRmImm6RnRd),
    AddExtReg64(AddSubtractExtReg),
    SubImm64(ShImm12RnRd),
    SubShiftedReg64(ShiftRmImm6RnRd),
    SubsShiftedReg64(ShiftRmImm6RnRd),
    SubsImm32(ShImm12RnRd),
    SubsImm64(ShImm12RnRd),
    Ubfm64(Bitfield),
    AndsImm64(LogicalImm),
    Sbfm64(Bitfield),
    BImm(Imm26),
    BlImm(Imm26),
    Br(UncondBranchReg),
    Blr(UncondBranchReg),
    Ret(UncondBranchReg),
    BCond(Imm19Cond),
    Cbz64(Imm19Rt),
    Cbnz32(Imm19Rt),
    Cbnz64(Imm19Rt),
    CcmpImmVar32(CondCmpImm),
    CcmpImmVar64(CondCmpImm),
    Csel32(RmCondRnRd),
    Svc(ExceptionGen),
    Brk(ExceptionGen),
    Hlt(ExceptionGen),
    Mrs(SysRegMov),
    Nop,
    Yield,
    Wfe,
    Wfi,
    Sev,
    Sevl,
}

impl AArch64Instr {
    /// The carried operand record is well formed for this opcode's encoding.
    pub open spec fn wf(self) -> bool {
        match self {
            AArch64Instr::MovzVar32(op) => op.wf(),
            AArch64Instr::MovzVar64(op) => op.wf(),
            AArch64Instr::Adr(op) => op.wf(),
            AArch64Instr::Adrp(op) => op.wf(),
            AArch64Instr::OrrShiftedReg32(op) => op.wf(),
            AArch64Instr::OrrShiftedReg64(op) => op.wf(),
            AArch64Instr::LdrImm32(op) => op.wf(),
            AArch64Instr::LdrImm64(op) => op.wf(),
            AArch64Instr::StrImm32(op) => op.wf(),
            AArch64Instr::StrImm64(op) => op.wf(),
            AArch64Instr::LdrLitVar64(op) => op.wf(),
            AArch64Instr::StpVar32(op) => op.wf(),
            AArch64Instr::StpVar64(op) => op.wf(),
            AArch64Instr::LdrbImm(op) => op.wf(),
            AArch64Instr::LdrhImm(op) => op.wf(),
            AArch64Instr::LdrReg32(op) => op.wf(),
            AArch64Instr::LdrReg64(op) => op.wf(),
            AArch64Instr::AddImm64(op) => op.wf(),
            AArch64Instr::AddShiftedReg64(op) => op.wf(),
            AArch64Instr::AddExtReg64(op) => op.wf(),
            AArch64Instr::SubImm64(op) => op.wf(),
            AArch64Instr::SubShiftedReg64(op) => op.wf(),
            AArch64Instr::SubsShiftedReg64(op) => op.wf(),
            AArch64Instr::SubsImm32(op) => op.wf(),
            AArch64Instr::SubsImm64(op) => op.wf(),
            AArch64Instr::Ubfm64(op) => op.wf(),
            AArch64Instr::AndsImm64(op) => op.wf(),
            AArch64Instr::Sbfm64(op) => op.wf(),
            AArch64Instr::BImm(op) => op.wf(),
            AArch64Instr::BlImm(op) => op.wf(),
            AArch64Instr::Br(op) => op.wf(),
            AArch64Instr::Blr(op) => op.wf(),
            AArch64Instr::Ret(op) => op.wf(),
            AArch64Instr::BCond(op) => op.wf(),
            AArch64Instr::Cbz64(op) => op.wf(),
            AArch64Instr::Cbnz32(op) => op.wf(),
            AArch64Instr::Cbnz64(op) => op.wf(),
            AArch64Instr::CcmpImmVar32(op) => op.wf(),
            AArch64Instr::CcmpImmVar64(op) => op.wf(),
            AArch64Instr::Csel32(op) => op.wf(),
            AArch64Instr::Svc(op) => op.wf(),
            AArch64Instr::Brk(op) => op.wf(),
            AArch64Instr::Hlt(op) => op.wf(),
            AArch64Instr::Mrs(op) => op.wf(),
            AArch64Instr::Nop => true,
            AArch64Instr::Yield => true,
            AArch64Instr::Wfe => true,
            AArch64Instr::Wfi => true,
            AArch64Instr::Sev => true,
            AArch64Instr::Sevl => true,
        }
    }
}

} // verus!
