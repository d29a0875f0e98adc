//! The AArch64 instruction decoder: a pattern matcher populated with one
//! row per encoding, each row's handler building the operand record for one
//! opcode from fixed bit ranges of the matched word.
//!
//! Each row is written as a `(pattern, mask)` pair of 32-bit words: a mask
//! bit fixes the corresponding pattern bit, a clear mask bit is a don't-care.
//! More specific rows are registered first; dispatch is first-match.  The
//! decoder also provides the inverse direction, [`encode`], and the proof
//! that re-encoding a decoded instruction yields the original word.

use crate::bit_patterns::{BitPatternMatcher, BitRange, Handler, Match, spec_dispatch};
use crate::bit_patterns::{lemma_dispatch_yields_row};
use crate::bits::spec_extract_bits32;
use crate::error::TranslateError;
use crate::instruction::{
    AArch64Instr, AddSubtractExtReg, Bitfield, CondCmpImm, ExceptionGen, HwImm16Rd, Imm19Cond,
    Imm19Rt, Imm26, LoadStoreRegPair, LoadStoreRegRegOffset, LogicalImm, PcRelAddressing,
    RmCondRnRd, ShImm12RnRd, ShiftRmImm6RnRd, SizeImm12RnRt, SysRegMov, UncondBranchReg,
};
use vstd::prelude::*;

verus! {

broadcast use crate::bits::lemma_extract_bits32_bound;

/// The bit field `[lo, hi)` of `w`, as the decoder's row handlers read it.
pub open spec fn fld(w: u32, lo: u32, hi: u32) -> u32 {
    spec_extract_bits32(w, lo, hi)
}

/// Executable twin of [`fld`].
fn xf(w: u32, lo: u32, hi: u32) -> (r: u32)
    requires
        lo <= hi <= 32,
    ensures
        r == fld(w, lo, hi),
{
    BitRange { lo, hi }.extract(w)
}

/// One value per decodable opcode: the handler tag of that opcode's rows.
#[derive(Clone, Copy, Debug, PartialEq, Eq, Structural)]
pub enum EncodingRow {
    MovzVar32,
    MovzVar64,
    Adr,
    Adrp,
    OrrShiftedReg32,
    OrrShiftedReg64,
    AddShiftedReg64,
    SubShiftedReg64,
    SubsShiftedReg64,
    AddImm64,
    SubImm64,
    SubsImm32,
    SubsImm64,
    AndsImm64,
    Sbfm64,
    Ubfm64,
    LdrImm32,
    LdrImm64,
    StrImm32,
    StrImm64,
    LdrbImm,
    LdrhImm,
    LdrReg32,
    LdrReg64,
    StpVar32,
    StpVar64,
    LdrLitVar64,
    Cbz64,
    Cbnz32,
    Cbnz64,
    BImm,
    BlImm,
    BCond,
    Br,
    Blr,
    Ret,
    CcmpImmVar32,
    CcmpImmVar64,
    Csel32,
    Svc,
    Brk,
    Hlt,
    Mrs,
    AddExtReg64,
    Nop,
    Yield,
    Wfe,
    Wfi,
    Sev,
    Sevl,
}

/// The instruction a row handler builds from a matched word: each operand
/// field is one fixed bit range of the word.
pub open spec fn row_instr(row: EncodingRow, w: u32) -> AArch64Instr {
    match row {
        EncodingRow::MovzVar32 => AArch64Instr::MovzVar32(HwImm16Rd { hw: fld(w, 21, 23) as u8, imm16: fld(w, 5, 21) as u16, rd: fld(w, 0, 5) as u8 }),
        EncodingRow::MovzVar64 => AArch64Instr::MovzVar64(HwImm16Rd { hw: fld(w, 21, 23) as u8, imm16: fld(w, 5, 21) as u16, rd: fld(w, 0, 5) as u8 }),
        EncodingRow::Adr => AArch64Instr::Adr(PcRelAddressing { immlo: fld(w, 29, 31) as u8, immhi: fld(w, 5, 24), rd: fld(w, 0, 5) as u8 }),
        EncodingRow::Adrp => AArch64Instr::Adrp(PcRelAddressing { immlo: fld(w, 29, 31) as u8, immhi: fld(w, 5, 24), rd: fld(w, 0, 5) as u8 }),
        EncodingRow::OrrShiftedReg32 => AArch64Instr::OrrShiftedReg32(ShiftRmImm6RnRd { shift: fld(w, 22, 24) as u8, rm: fld(w, 16, 21) as u8, imm6: fld(w, 10, 16) as u8, rn: fld(w, 5, 10) as u8, rd: fld(w, 0, 5) as u8 }),
        EncodingRow::OrrShiftedReg64 => AArch64Instr::OrrShiftedReg64(ShiftRmImm6RnRd { shift: fld(w, 22, 24) as u8, rm: fld(w, 16, 21) as u8, imm6: fld(w, 10, 16) as u8, rn: fld(w, 5, 10) as u8, rd: fld(w, 0, 5) as u8 }),
        EncodingRow::AddShiftedReg64 => AArch64Instr::AddShiftedReg64(ShiftRmImm6RnRd { shift: fld(w, 22, 24) as u8, rm: fld(w, 16, 21) as u8, imm6: fld(w, 10, 16) as u8, rn: fld(w, 5, 10) as u8, rd: fld(w, 0, 5) as u8 }),
        EncodingRow::SubShiftedReg64 => AArch64Instr::SubShiftedReg64(ShiftRmImm6RnRd { shift: fld(w, 22, 24) as u8, rm: fld(w, 16, 21) as u8, imm6: fld(w, 10, 16) as u8, rn: fld(w, 5, 10) as u8, rd: fld(w, 0, 5) as u8 }),
        EncodingRow::SubsShiftedReg64 => AArch64Instr::SubsShiftedReg64(ShiftRmImm6RnRd { shift: fld(w, 22, 24) as u8, rm: fld(w, 16, 21) as u8, imm6: fld(w, 10, 16) as u8, rn: fld(w, 5, 10) as u8, rd: fld(w, 0, 5) as u8 }),
        EncodingRow::AddImm64 => AArch64Instr::AddImm64(ShImm12RnRd { sh: fld(w, 22, 23) as u8, imm12: fld(w, 10, 22) as u16, rn: fld(w, 5, 10) as u8, rd: fld(w, 0, 5) as u8 }),
        EncodingRow::SubImm64 => AArch64Instr::SubImm64(ShImm12RnRd { sh: fld(w, 22, 23) as u8, imm12: fld(w, 10, 22) as u16, rn: fld(w, 5, 10) as u8, rd: fld(w, 0, 5) as u8 }),
        EncodingRow::SubsImm32 => AArch64Instr::SubsImm32(ShImm12RnRd { sh: fld(w, 22, 23) as u8, imm12: fld(w, 10, 22) as u16, rn: fld(w, 5, 10) as u8, rd: fld(w, 0, 5) as u8 }),
        EncodingRow::SubsImm64 => AArch64Instr::SubsImm64(ShImm12RnRd { sh: fld(w, 22, 23) as u8, imm12: fld(w, 10, 22) as u16, rn: fld(w, 5, 10) as u8, rd: fld(w, 0, 5) as u8 }),
        EncodingRow::AndsImm64 => AArch64Instr::AndsImm64(LogicalImm { n: fld(w, 22, 23) as u8, immr: fld(w, 16, 22) as u8, imms: fld(w, 10, 16) as u8, rn: fld(w, 5, 10) as u8, rd: fld(w, 0, 5) as u8 }),
        EncodingRow::Sbfm64 => AArch64Instr::Sbfm64(Bitfield { n: fld(w, 22, 23) as u8, immr: fld(w, 16, 22) as u8, imms: fld(w, 10, 16) as u8, rn: fld(w, 5, 10) as u8, rd: fld(w, 0, 5) as u8 }),
        EncodingRow::Ubfm64 => AArch64Instr::Ubfm64(Bitfield { n: fld(w, 22, 23) as u8, immr: fld(w, 16, 22) as u8, imms: fld(w, 10, 16) as u8, rn: fld(w, 5, 10) as u8, rd: fld(w, 0, 5) as u8 }),
        EncodingRow::LdrImm32 => AArch64Instr::LdrImm32(SizeImm12RnRt { size: fld(w, 30, 32) as u8, opc: fld(w, 22, 26) as u8, imm12: fld(w, 10, 22) as u16, rn: fld(w, 5, 10) as u8, rt: fld(w, 0, 5) as u8 }),
        EncodingRow::LdrImm64 => AArch64Instr::LdrImm64(SizeImm12RnRt { size: fld(w, 30, 32) as u8, opc: fld(w, 22, 26) as u8, imm12: fld(w, 10, 22) as u16, rn: fld(w, 5, 10) as u8, rt: fld(w, 0, 5) as u8 }),
        EncodingRow::StrImm32 => AArch64Instr::StrImm32(SizeImm12RnRt { size: fld(w, 30, 32) as u8, opc: fld(w, 22, 26) as u8, imm12: fld(w, 10, 22) as u16, rn: fld(w, 5, 10) as u8, rt: fld(w, 0, 5) as u8 }),
        EncodingRow::StrImm64 => AArch64Instr::StrImm64(SizeImm12RnRt { size: fld(w, 30, 32) as u8, opc: fld(w, 22, 26) as u8, imm12: fld(w, 10, 22) as u16, rn: fld(w, 5, 10) as u8, rt: fld(w, 0, 5) as u8 }),
        EncodingRow::LdrbImm => AArch64Instr::LdrbImm(SizeImm12RnRt { size: fld(w, 30, 32) as u8, opc: fld(w, 22, 26) as u8, imm12: fld(w, 10, 22) as u16, rn: fld(w, 5, 10) as u8, rt: fld(w, 0, 5) as u8 }),
        EncodingRow::LdrhImm => AArch64Instr::LdrhImm(SizeImm12RnRt { size: fld(w, 30, 32) as u8, opc: fld(w, 22, 26) as u8, imm12: fld(w, 10, 22) as u16, rn: fld(w, 5, 10) as u8, rt: fld(w, 0, 5) as u8 }),
        EncodingRow::LdrReg32 => AArch64Instr::LdrReg32(LoadStoreRegRegOffset { size: fld(w, 30, 32) as u8, rm: fld(w, 16, 21) as u8, option: fld(w, 13, 16) as u8, s: fld(w, 12, 13) as u8, rn: fld(w, 5, 10) as u8, rt: fld(w, 0, 5) as u8 }),
        EncodingRow::LdrReg64 => AArch64Instr::LdrReg64(LoadStoreRegRegOffset { size: fld(w, 30, 32) as u8, rm: fld(w, 16, 21) as u8, option: fld(w, 13, 16) as u8, s: fld(w, 12, 13) as u8, rn: fld(w, 5, 10) as u8, rt: fld(w, 0, 5) as u8 }),
        EncodingRow::StpVar32 => AArch64Instr::StpVar32(LoadStoreRegPair { o: fld(w, 23, 26) as u8, imm7: fld(w, 15, 22) as u8, rt2: fld(w, 10, 15) as u8, rn: fld(w, 5, 10) as u8, rt: fld(w, 0, 5) as u8 }),
        EncodingRow::StpVar64 => AArch64Instr::StpVar64(LoadStoreRegPair { o: fld(w, 23, 26) as u8, imm7: fld(w, 15, 22) as u8, rt2: fld(w, 10, 15) as u8, rn: fld(w, 5, 10) as u8, rt: fld(w, 0, 5) as u8 }),
        EncodingRow::LdrLitVar64 => AArch64Instr::LdrLitVar64(Imm19Rt { imm19: fld(w, 5, 24), rt: fld(w, 0, 5) as u8 }),
        EncodingRow::Cbz64 => AArch64Instr::Cbz64(Imm19Rt { imm19: fld(w, 5, 24), rt: fld(w, 0, 5) as u8 }),
        EncodingRow::Cbnz32 => AArch64Instr::Cbnz32(Imm19Rt { imm19: fld(w, 5, 24), rt: fld(w, 0, 5) as u8 }),
        EncodingRow::Cbnz64 => AArch64Instr::Cbnz64(Imm19Rt { imm19: fld(w, 5, 24), rt: fld(w, 0, 5) as u8 }),
        EncodingRow::BImm => AArch64Instr::BImm(Imm26 { imm26: fld(w, 0, 26) }),
        EncodingRow::BlImm => AArch64Instr::BlImm(Imm26 { imm26: fld(w, 0, 26) }),
        EncodingRow::BCond => AArch64Instr::BCond(Imm19Cond { imm19: fld(w, 5, 24), cond: fld(w, 0, 4) as u8 }),
        EncodingRow::Br => AArch64Instr::Br(UncondBranchReg { rn: fld(w, 5, 10) as u8 }),
        EncodingRow::Blr => AArch64Instr::Blr(UncondBranchReg { rn: fld(w, 5, 10) as u8 }),
        EncodingRow::Ret => AArch64Instr::Ret(UncondBranchReg { rn: fld(w, 5, 10) as u8 }),
        EncodingRow::CcmpImmVar32 => AArch64Instr::CcmpImmVar32(CondCmpImm { imm5: fld(w, 16, 21) as u8, cond: fld(w, 12, 16) as u8, rn: fld(w, 5, 10) as u8, nzcv: fld(w, 0, 4) as u8 }),
        EncodingRow::CcmpImmVar64 => AArch64Instr::CcmpImmVar64(CondCmpImm { imm5: fld(w, 16, 21) as u8, cond: fld(w, 12, 16) as u8, rn: fld(w, 5, 10) as u8, nzcv: fld(w, 0, 4) as u8 }),
        EncodingRow::Csel32 => AArch64Instr::Csel32(RmCondRnRd { rm: fld(w, 16, 21) as u8, cond: fld(w, 12, 16) as u8, rn: fld(w, 5, 10) as u8, rd: fld(w, 0, 5) as u8 }),
        EncodingRow::Svc => AArch64Instr::Svc(ExceptionGen { imm16: fld(w, 5, 21) as u16 }),
        EncodingRow::Brk => AArch64Instr::Brk(ExceptionGen { imm16: fld(w, 5, 21) as u16 }),
        EncodingRow::Hlt => AArch64Instr::Hlt(ExceptionGen { imm16: fld(w, 5, 21) as u16 }),
        EncodingRow::Mrs => AArch64Instr::Mrs(SysRegMov { o0: fld(w, 19, 20) as u8, op1: fld(w, 16, 19) as u8, crn: fld(w, 12, 16) as u8, crm: fld(w, 8, 12) as u8, op2: fld(w, 5, 8) as u8, rt: fld(w, 0, 5) as u8 }),
        EncodingRow::AddExtReg64 => AArch64Instr::AddExtReg64(AddSubtractExtReg { rm: fld(w, 16, 21) as u8, option: fld(w, 13, 16) as u8, imm3: fld(w, 10, 13) as u8, rn: fld(w, 5, 10) as u8, rd: fld(w, 0, 5) as u8 }),
        EncodingRow::Nop => AArch64Instr::Nop,
        EncodingRow::Yield => AArch64Instr::Yield,
        EncodingRow::Wfe => AArch64Instr::Wfe,
        EncodingRow::Wfi => AArch64Instr::Wfi,
        EncodingRow::Sev => AArch64Instr::Sev,
        EncodingRow::Sevl => AArch64Instr::Sevl,
    }
}

impl Handler for EncodingRow {
    type Output = AArch64Instr;

    open spec fn spec_handle(&self, raw_instr: u32) -> AArch64Instr {
        row_instr(*self, raw_instr)
    }

    fn handle(&self, raw_instr: u32) -> (r: AArch64Instr)
        ensures
            r == self.spec_handle(raw_instr),
    {
        let w = raw_instr;
        match self {
            EncodingRow::MovzVar32 => AArch64Instr::MovzVar32(HwImm16Rd { hw: xf(w, 21, 23) as u8, imm16: xf(w, 5, 21) as u16, rd: xf(w, 0, 5) as u8 }),
            EncodingRow::MovzVar64 => AArch64Instr::MovzVar64(HwImm16Rd { hw: xf(w, 21, 23) as u8, imm16: xf(w, 5, 21) as u16, rd: xf(w, 0, 5) as u8 }),
            EncodingRow::Adr => AArch64Instr::Adr(PcRelAddressing { immlo: xf(w, 29, 31) as u8, immhi: xf(w, 5, 24), rd: xf(w, 0, 5) as u8 }),
            EncodingRow::Adrp => AArch64Instr::Adrp(PcRelAddressing { immlo: xf(w, 29, 31) as u8, immhi: xf(w, 5, 24), rd: xf(w, 0, 5) as u8 }),
            EncodingRow::OrrShiftedReg32 => AArch64Instr::OrrShiftedReg32(ShiftRmImm6RnRd { shift: xf(w, 22, 24) as u8, rm: xf(w, 16, 21) as u8, imm6: xf(w, 10, 16) as u8, rn: xf(w, 5, 10) as u8, rd: xf(w, 0, 5) as u8 }),
            EncodingRow::OrrShiftedReg64 => AArch64Instr::OrrShiftedReg64(ShiftRmImm6RnRd { shift: xf(w, 22, 24) as u8, rm: xf(w, 16, 21) as u8, imm6: xf(w, 10, 16) as u8, rn: xf(w, 5, 10) as u8, rd: xf(w, 0, 5) as u8 }),
            EncodingRow::AddShiftedReg64 => AArch64Instr::AddShiftedReg64(ShiftRmImm6RnRd { shift: xf(w, 22, 24) as u8, rm: xf(w, 16, 21) as u8, imm6: xf(w, 10, 16) as u8, rn: xf(w, 5, 10) as u8, rd: xf(w, 0, 5) as u8 }),
            EncodingRow::SubShiftedReg64 => AArch64Instr::SubShiftedReg64(ShiftRmImm6RnRd { shift: xf(w, 22, 24) as u8, rm: xf(w, 16, 21) as u8, imm6: xf(w, 10, 16) as u8, rn: xf(w, 5, 10) as u8, rd: xf(w, 0, 5) as u8 }),
            EncodingRow::SubsShiftedReg64 => AArch64Instr::SubsShiftedReg64(ShiftRmImm6RnRd { shift: xf(w, 22, 24) as u8, rm: xf(w, 16, 21) as u8, imm6: xf(w, 10, 16) as u8, rn: xf(w, 5, 10) as u8, rd: xf(w, 0, 5) as u8 }),
            EncodingRow::AddImm64 => AArch64Instr::AddImm64(ShImm12RnRd { sh: xf(w, 22, 23) as u8, imm12: xf(w, 10, 22) as u16, rn: xf(w, 5, 10) as u8, rd: xf(w, 0, 5) as u8 }),
            EncodingRow::SubImm64 => AArch64Instr::SubImm64(ShImm12RnRd { sh: xf(w, 22, 23) as u8, imm12: xf(w, 10, 22) as u16, rn: xf(w, 5, 10) as u8, rd: xf(w, 0, 5) as u8 }),
            EncodingRow::SubsImm32 => AArch64Instr::SubsImm32(ShImm12RnRd { sh: xf(w, 22, 23) as u8, imm12: xf(w, 10, 22) as u16, rn: xf(w, 5, 10) as u8, rd: xf(w, 0, 5) as u8 }),
            EncodingRow::SubsImm64 => AArch64Instr::SubsImm64(ShImm12RnRd { sh: xf(w, 22, 23) as u8, imm12: xf(w, 10, 22) as u16, rn: xf(w, 5, 10) as u8, rd: xf(w, 0, 5) as u8 }),
            EncodingRow::AndsImm64 => AArch64Instr::AndsImm64(LogicalImm { n: xf(w, 22, 23) as u8, immr: xf(w, 16, 22) as u8, imms: xf(w, 10, 16) as u8, rn: xf(w, 5, 10) as u8, rd: xf(w, 0, 5) as u8 }),
            EncodingRow::Sbfm64 => AArch64Instr::Sbfm64(Bitfield { n: xf(w, 22, 23) as u8, immr: xf(w, 16, 22) as u8, imms: xf(w, 10, 16) as u8, rn: xf(w, 5, 10) as u8, rd: xf(w, 0, 5) as u8 }),
            EncodingRow::Ubfm64 => AArch64Instr::Ubfm64(Bitfield { n: xf(w, 22, 23) as u8, immr: xf(w, 16, 22) as u8, imms: xf(w, 10, 16) as u8, rn: xf(w, 5, 10) as u8, rd: xf(w, 0, 5) as u8 }),
            EncodingRow::LdrImm32 => AArch64Instr::LdrImm32(SizeImm12RnRt { size: xf(w, 30, 32) as u8, opc: xf(w, 22, 26) as u8, imm12: xf(w, 10, 22) as u16, rn: xf(w, 5, 10) as u8, rt: xf(w, 0, 5) as u8 }),
            EncodingRow::LdrImm64 => AArch64Instr::LdrImm64(SizeImm12RnRt { size: xf(w, 30, 32) as u8, opc: xf(w, 22, 26) as u8, imm12: xf(w, 10, 22) as u16, rn: xf(w, 5, 10) as u8, rt: xf(w, 0, 5) as u8 }),
            EncodingRow::StrImm32 => AArch64Instr::StrImm32(SizeImm12RnRt { size: xf(w, 30, 32) as u8, opc: xf(w, 22, 26) as u8, imm12: xf(w, 10, 22) as u16, rn: xf(w, 5, 10) as u8, rt: xf(w, 0, 5) as u8 }),
            EncodingRow::StrImm64 => AArch64Instr::StrImm64(SizeImm12RnRt { size: xf(w, 30, 32) as u8, opc: xf(w, 22, 26) as u8, imm12: xf(w, 10, 22) as u16, rn: xf(w, 5, 10) as u8, rt: xf(w, 0, 5) as u8 }),
            EncodingRow::LdrbImm => AArch64Instr::LdrbImm(SizeImm12RnRt { size: xf(w, 30, 32) as u8, opc: xf(w, 22, 26) as u8, imm12: xf(w, 10, 22) as u16, rn: xf(w, 5, 10) as u8, rt: xf(w, 0, 5) as u8 }),
            EncodingRow::LdrhImm => AArch64Instr::LdrhImm(SizeImm12RnRt { size: xf(w, 30, 32) as u8, opc: xf(w, 22, 26) as u8, imm12: xf(w, 10, 22) as u16, rn: xf(w, 5, 10) as u8, rt: xf(w, 0, 5) as u8 }),
            EncodingRow::LdrReg32 => AArch64Instr::LdrReg32(LoadStoreRegRegOffset { size: xf(w, 30, 32) as u8, rm: xf(w, 16, 21) as u8, option: xf(w, 13, 16) as u8, s: xf(w, 12, 13) as u8, rn: xf(w, 5, 10) as u8, rt: xf(w, 0, 5) as u8 }),
            EncodingRow::LdrReg64 => AArch64Instr::LdrReg64(LoadStoreRegRegOffset { size: xf(w, 30, 32) as u8, rm: xf(w, 16, 21) as u8, option: xf(w, 13, 16) as u8, s: xf(w, 12, 13) as u8, rn: xf(w, 5, 10) as u8, rt: xf(w, 0, 5) as u8 }),
            EncodingRow::StpVar32 => AArch64Instr::StpVar32(LoadStoreRegPair { o: xf(w, 23, 26) as u8, imm7: xf(w, 15, 22) as u8, rt2: xf(w, 10, 15) as u8, rn: xf(w, 5, 10) as u8, rt: xf(w, 0, 5) as u8 }),
            EncodingRow::StpVar64 => AArch64Instr::StpVar64(LoadStoreRegPair { o: xf(w, 23, 26) as u8, imm7: xf(w, 15, 22) as u8, rt2: xf(w, 10, 15) as u8, rn: xf(w, 5, 10) as u8, rt: xf(w, 0, 5) as u8 }),
            EncodingRow::LdrLitVar64 => AArch64Instr::LdrLitVar64(Imm19Rt { imm19: xf(w, 5, 24), rt: xf(w, 0, 5) as u8 }),
            EncodingRow::Cbz64 => AArch64Instr::Cbz64(Imm19Rt { imm19: xf(w, 5, 24), rt: xf(w, 0, 5) as u8 }),
            EncodingRow::Cbnz32 => AArch64Instr::Cbnz32(Imm19Rt { imm19: xf(w, 5, 24), rt: xf(w, 0, 5) as u8 }),
            EncodingRow::Cbnz64 => AArch64Instr::Cbnz64(Imm19Rt { imm19: xf(w, 5, 24), rt: xf(w, 0, 5) as u8 }),
            EncodingRow::BImm => AArch64Instr::BImm(Imm26 { imm26: xf(w, 0, 26) }),
            EncodingRow::BlImm => AArch64Instr::BlImm(Imm26 { imm26: xf(w, 0, 26) }),
            EncodingRow::BCond => AArch64Instr::BCond(Imm19Cond { imm19: xf(w, 5, 24), cond: xf(w, 0, 4) as u8 }),
            EncodingRow::Br => AArch64Instr::Br(UncondBranchReg { rn: xf(w, 5, 10) as u8 }),
            EncodingRow::Blr => AArch64Instr::Blr(UncondBranchReg { rn: xf(w, 5, 10) as u8 }),
            EncodingRow::Ret => AArch64Instr::Ret(UncondBranchReg { rn: xf(w, 5, 10) as u8 }),
            EncodingRow::CcmpImmVar32 => AArch64Instr::CcmpImmVar32(CondCmpImm { imm5: xf(w, 16, 21) as u8, cond: xf(w, 12, 16) as u8, rn: xf(w, 5, 10) as u8, nzcv: xf(w, 0, 4) as u8 }),
            EncodingRow::CcmpImmVar64 => AArch64Instr::CcmpImmVar64(CondCmpImm { imm5: xf(w, 16, 21) as u8, cond: xf(w, 12, 16) as u8, rn: xf(w, 5, 10) as u8, nzcv: xf(w, 0, 4) as u8 }),
            EncodingRow::Csel32 => AArch64Instr::Csel32(RmCondRnRd { rm: xf(w, 16, 21) as u8, cond: xf(w, 12, 16) as u8, rn: xf(w, 5, 10) as u8, rd: xf(w, 0, 5) as u8 }),
            EncodingRow::Svc => AArch64Instr::Svc(ExceptionGen { imm16: xf(w, 5, 21) as u16 }),
            EncodingRow::Brk => AArch64Instr::Brk(ExceptionGen { imm16: xf(w, 5, 21) as u16 }),
            EncodingRow::Hlt => AArch64Instr::Hlt(ExceptionGen { imm16: xf(w, 5, 21) as u16 }),
            EncodingRow::Mrs => AArch64Instr::Mrs(SysRegMov { o0: xf(w, 19, 20) as u8, op1: xf(w, 16, 19) as u8, crn: xf(w, 12, 16) as u8, crm: xf(w, 8, 12) as u8, op2: xf(w, 5, 8) as u8, rt: xf(w, 0, 5) as u8 }),
            EncodingRow::AddExtReg64 => AArch64Instr::AddExtReg64(AddSubtractExtReg { rm: xf(w, 16, 21) as u8, option: xf(w, 13, 16) as u8, imm3: xf(w, 10, 13) as u8, rn: xf(w, 5, 10) as u8, rd: xf(w, 0, 5) as u8 }),
            EncodingRow::Nop => AArch64Instr::Nop,
            EncodingRow::Yield => AArch64Instr::Yield,
            EncodingRow::Wfe => AArch64Instr::Wfe,
            EncodingRow::Wfi => AArch64Instr::Wfi,
            EncodingRow::Sev => AArch64Instr::Sev,
            EncodingRow::Sevl => AArch64Instr::Sevl,
        }
    }
}

/// The decoder's row table, in registration order: more specific rows
/// (hints, exceptions, system moves) come before the wide classes.
pub open spec fn a64_rows() -> Seq<Match<EncodingRow>> {
    seq![
        Match { pattern: 0xD503201Fu32, mask: 0xFFFFFFFFu32, handler: EncodingRow::Nop },
        Match { pattern: 0xD503203Fu32, mask: 0xFFFFFFFFu32, handler: EncodingRow::Yield },
        Match { pattern: 0xD503205Fu32, mask: 0xFFFFFFFFu32, handler: EncodingRow::Wfe },
        Match { pattern: 0xD503207Fu32, mask: 0xFFFFFFFFu32, handler: EncodingRow::Wfi },
        Match { pattern: 0xD503209Fu32, mask: 0xFFFFFFFFu32, handler: EncodingRow::Sev },
        Match { pattern: 0xD50320BFu32, mask: 0xFFFFFFFFu32, handler: EncodingRow::Sevl },
        Match { pattern: 0xD4000001u32, mask: 0xFFE0001Fu32, handler: EncodingRow::Svc },
        Match { pattern: 0xD4200000u32, mask: 0xFFE0001Fu32, handler: EncodingRow::Brk },
        Match { pattern: 0xD4400000u32, mask: 0xFFE0001Fu32, handler: EncodingRow::Hlt },
        Match { pattern: 0xD5300000u32, mask: 0xFFF00000u32, handler: EncodingRow::Mrs },
        Match { pattern: 0xD61F0000u32, mask: 0xFFFFFC1Fu32, handler: EncodingRow::Br },
        Match { pattern: 0xD63F0000u32, mask: 0xFFFFFC1Fu32, handler: EncodingRow::Blr },
        Match { pattern: 0xD65F0000u32, mask: 0xFFFFFC1Fu32, handler: EncodingRow::Ret },
        Match { pattern: 0x10000000u32, mask: 0x9F000000u32, handler: EncodingRow::Adr },
        Match { pattern: 0x90000000u32, mask: 0x9F000000u32, handler: EncodingRow::Adrp },
        Match { pattern: 0x52800000u32, mask: 0xFFC00000u32, handler: EncodingRow::MovzVar32 },
        Match { pattern: 0xD2800000u32, mask: 0xFF800000u32, handler: EncodingRow::MovzVar64 },
        Match { pattern: 0x91000000u32, mask: 0xFF800000u32, handler: EncodingRow::AddImm64 },
        Match { pattern: 0xD1000000u32, mask: 0xFF800000u32, handler: EncodingRow::SubImm64 },
        Match { pattern: 0x71000000u32, mask: 0xFF800000u32, handler: EncodingRow::SubsImm32 },
        Match { pattern: 0xF1000000u32, mask: 0xFF800000u32, handler: EncodingRow::SubsImm64 },
        Match { pattern: 0xF2000000u32, mask: 0xFF800000u32, handler: EncodingRow::AndsImm64 },
        Match { pattern: 0x93400000u32, mask: 0xFFC00000u32, handler: EncodingRow::Sbfm64 },
        Match { pattern: 0xD3400000u32, mask: 0xFFC00000u32, handler: EncodingRow::Ubfm64 },
        Match { pattern: 0x2A000000u32, mask: 0xFF200000u32, handler: EncodingRow::OrrShiftedReg32 },
        Match { pattern: 0xAA000000u32, mask: 0xFF200000u32, handler: EncodingRow::OrrShiftedReg64 },
        Match { pattern: 0x8B000000u32, mask: 0xFF200000u32, handler: EncodingRow::AddShiftedReg64 },
        Match { pattern: 0xCB000000u32, mask: 0xFF200000u32, handler: EncodingRow::SubShiftedReg64 },
        Match { pattern: 0xEB000000u32, mask: 0xFF200000u32, handler: EncodingRow::SubsShiftedReg64 },
        Match { pattern: 0x8B200000u32, mask: 0xFFE00000u32, handler: EncodingRow::AddExtReg64 },
        Match { pattern: 0x14000000u32, mask: 0xFC000000u32, handler: EncodingRow::BImm },
        Match { pattern: 0x94000000u32, mask: 0xFC000000u32, handler: EncodingRow::BlImm },
        Match { pattern: 0x54000000u32, mask: 0xFF000010u32, handler: EncodingRow::BCond },
        Match { pattern: 0xB4000000u32, mask: 0xFF000000u32, handler: EncodingRow::Cbz64 },
        Match { pattern: 0xB5000000u32, mask: 0xFF000000u32, handler: EncodingRow::Cbnz64 },
        Match { pattern: 0x35000000u32, mask: 0xFF000000u32, handler: EncodingRow::Cbnz32 },
        Match { pattern: 0x7A400800u32, mask: 0xFFE00C10u32, handler: EncodingRow::CcmpImmVar32 },
        Match { pattern: 0xFA400800u32, mask: 0xFFE00C10u32, handler: EncodingRow::CcmpImmVar64 },
        Match { pattern: 0x1A800000u32, mask: 0xFFE00C00u32, handler: EncodingRow::Csel32 },
        Match { pattern: 0x58000000u32, mask: 0xFF000000u32, handler: EncodingRow::LdrLitVar64 },
        Match { pattern: 0xA8800000u32, mask: 0xFFC00000u32, handler: EncodingRow::StpVar64 },
        Match { pattern: 0xA9000000u32, mask: 0xFF400000u32, handler: EncodingRow::StpVar64 },
        Match { pattern: 0x28800000u32, mask: 0xFFC00000u32, handler: EncodingRow::StpVar32 },
        Match { pattern: 0x29000000u32, mask: 0xFF400000u32, handler: EncodingRow::StpVar32 },
        Match { pattern: 0xF9400000u32, mask: 0xFFC00000u32, handler: EncodingRow::LdrImm64 },
        Match { pattern: 0xF8400400u32, mask: 0xFFE00400u32, handler: EncodingRow::LdrImm64 },
        Match { pattern: 0xB9400000u32, mask: 0xFFC00000u32, handler: EncodingRow::LdrImm32 },
        Match { pattern: 0xB8400400u32, mask: 0xFFE00400u32, handler: EncodingRow::LdrImm32 },
        Match { pattern: 0xF9000000u32, mask: 0xFFC00000u32, handler: EncodingRow::StrImm64 },
        Match { pattern: 0xF8000400u32, mask: 0xFFE00400u32, handler: EncodingRow::StrImm64 },
        Match { pattern: 0xB9000000u32, mask: 0xFFC00000u32, handler: EncodingRow::StrImm32 },
        Match { pattern: 0xB8000400u32, mask: 0xFFE00400u32, handler: EncodingRow::StrImm32 },
        Match { pattern: 0x39400000u32, mask: 0xFFC00000u32, handler: EncodingRow::LdrbImm },
        Match { pattern: 0x38400400u32, mask: 0xFFE00400u32, handler: EncodingRow::LdrbImm },
        Match { pattern: 0x79400000u32, mask: 0xFFC00000u32, handler: EncodingRow::LdrhImm },
        Match { pattern: 0x78400400u32, mask: 0xFFE00400u32, handler: EncodingRow::LdrhImm },
        Match { pattern: 0xF8600800u32, mask: 0xFFE00C00u32, handler: EncodingRow::LdrReg64 },
        Match { pattern: 0xB8600800u32, mask: 0xFFE00C00u32, handler: EncodingRow::LdrReg32 },
    ]
}

/// Dispatch over the row table as a result: the first matching row's
/// instruction, or `UndefinedEncoding` when no row matches.
pub open spec fn spec_decode(w: u32) -> Result<AArch64Instr, TranslateError> {
    match spec_dispatch(a64_rows(), w) {
        Some(i) => Ok(i),
        Option::None => Err(TranslateError::UndefinedEncoding(w)),
    }
}

/// The populated AArch64 decoder: a pattern matcher holding [`a64_rows`].
pub struct AArch64Decoder {
    matcher: BitPatternMatcher<EncodingRow>,
}

impl AArch64Decoder {
    /// The matcher always holds exactly the row table.
    #[verifier::type_invariant]
    spec fn inv(self) -> bool {
        self.matcher.rows() == a64_rows()
    }

    /// Builds the decoder by registering every row, specific rows first.
    #[verifier::rlimit(100)]
    pub fn new() -> (r: AArch64Decoder) {
        let mut m: BitPatternMatcher<EncodingRow> = BitPatternMatcher::new();
        // Hints: fully fixed words.
        m.bind_bits(0xD503201F, 0xFFFFFFFF, EncodingRow::Nop);
        m.bind_bits(0xD503203F, 0xFFFFFFFF, EncodingRow::Yield);
        m.bind_bits(0xD503205F, 0xFFFFFFFF, EncodingRow::Wfe);
        m.bind_bits(0xD503207F, 0xFFFFFFFF, EncodingRow::Wfi);
        m.bind_bits(0xD503209F, 0xFFFFFFFF, EncodingRow::Sev);
        m.bind_bits(0xD50320BF, 0xFFFFFFFF, EncodingRow::Sevl);
        // Exception generation: a 16-bit immediate at bit 5.
        m.bind_bits(0xD4000001, 0xFFE0001F, EncodingRow::Svc);
        m.bind_bits(0xD4200000, 0xFFE0001F, EncodingRow::Brk);
        m.bind_bits(0xD4400000, 0xFFE0001F, EncodingRow::Hlt);
        // System-register read: the register address and Rt in the low 20 bits.
        m.bind_bits(0xD5300000, 0xFFF00000, EncodingRow::Mrs);
        // Unconditional register branches: only Rn varies.
        m.bind_bits(0xD61F0000, 0xFFFFFC1F, EncodingRow::Br);
        m.bind_bits(0xD63F0000, 0xFFFFFC1F, EncodingRow::Blr);
        m.bind_bits(0xD65F0000, 0xFFFFFC1F, EncodingRow::Ret);
        // PC-relative addressing: the split immediate spans bits 30..29 and 23..5.
        m.bind_bits(0x10000000, 0x9F000000, EncodingRow::Adr);
        m.bind_bits(0x90000000, 0x9F000000, EncodingRow::Adrp);
        // Move wide with zero; the 32-bit form fixes the high chunk-index bit.
        m.bind_bits(0x52800000, 0xFFC00000, EncodingRow::MovzVar32);
        m.bind_bits(0xD2800000, 0xFF800000, EncodingRow::MovzVar64);
        // Add/subtract (immediate), with the reserved shift bit 23 fixed to zero.
        m.bind_bits(0x91000000, 0xFF800000, EncodingRow::AddImm64);
        m.bind_bits(0xD1000000, 0xFF800000, EncodingRow::SubImm64);
        m.bind_bits(0x71000000, 0xFF800000, EncodingRow::SubsImm32);
        m.bind_bits(0xF1000000, 0xFF800000, EncodingRow::SubsImm64);
        // Logical (immediate) and bitfield moves over n:immr:imms.
        m.bind_bits(0xF2000000, 0xFF800000, EncodingRow::AndsImm64);
        m.bind_bits(0x93400000, 0xFFC00000, EncodingRow::Sbfm64);
        m.bind_bits(0xD3400000, 0xFFC00000, EncodingRow::Ubfm64);
        // Shifted-register forms (bit 21 clear) and the extended-register add.
        m.bind_bits(0x2A000000, 0xFF200000, EncodingRow::OrrShiftedReg32);
        m.bind_bits(0xAA000000, 0xFF200000, EncodingRow::OrrShiftedReg64);
        m.bind_bits(0x8B000000, 0xFF200000, EncodingRow::AddShiftedReg64);
        m.bind_bits(0xCB000000, 0xFF200000, EncodingRow::SubShiftedReg64);
        m.bind_bits(0xEB000000, 0xFF200000, EncodingRow::SubsShiftedReg64);
        m.bind_bits(0x8B200000, 0xFFE00000, EncodingRow::AddExtReg64);
        // Immediate, conditional and compare-and-branch forms.
        m.bind_bits(0x14000000, 0xFC000000, EncodingRow::BImm);
        m.bind_bits(0x94000000, 0xFC000000, EncodingRow::BlImm);
        m.bind_bits(0x54000000, 0xFF000010, EncodingRow::BCond);
        m.bind_bits(0xB4000000, 0xFF000000, EncodingRow::Cbz64);
        m.bind_bits(0xB5000000, 0xFF000000, EncodingRow::Cbnz64);
        m.bind_bits(0x35000000, 0xFF000000, EncodingRow::Cbnz32);
        // Conditional compare (immediate) and conditional select.
        m.bind_bits(0x7A400800, 0xFFE00C10, EncodingRow::CcmpImmVar32);
        m.bind_bits(0xFA400800, 0xFFE00C10, EncodingRow::CcmpImmVar64);
        m.bind_bits(0x1A800000, 0xFFE00C00, EncodingRow::Csel32);
        // Loads and stores: the literal form, then pairs, then each sized
        // immediate class as its unsigned-offset row followed by its
        // pre/post-indexed row, then the register-offset forms.
        m.bind_bits(0x58000000, 0xFF000000, EncodingRow::LdrLitVar64);
        m.bind_bits(0xA8800000, 0xFFC00000, EncodingRow::StpVar64);
        m.bind_bits(0xA9000000, 0xFF400000, EncodingRow::StpVar64);
        m.bind_bits(0x28800000, 0xFFC00000, EncodingRow::StpVar32);
        m.bind_bits(0x29000000, 0xFF400000, EncodingRow::StpVar32);
        m.bind_bits(0xF9400000, 0xFFC00000, EncodingRow::LdrImm64);
        m.bind_bits(0xF8400400, 0xFFE00400, EncodingRow::LdrImm64);
        m.bind_bits(0xB9400000, 0xFFC00000, EncodingRow::LdrImm32);
        m.bind_bits(0xB8400400, 0xFFE00400, EncodingRow::LdrImm32);
        m.bind_bits(0xF9000000, 0xFFC00000, EncodingRow::StrImm64);
        m.bind_bits(0xF8000400, 0xFFE00400, EncodingRow::StrImm64);
        m.bind_bits(0xB9000000, 0xFFC00000, EncodingRow::StrImm32);
        m.bind_bits(0xB8000400, 0xFFE00400, EncodingRow::StrImm32);
        m.bind_bits(0x39400000, 0xFFC00000, EncodingRow::LdrbImm);
        m.bind_bits(0x38400400, 0xFFE00400, EncodingRow::LdrbImm);
        m.bind_bits(0x79400000, 0xFFC00000, EncodingRow::LdrhImm);
        m.bind_bits(0x78400400, 0xFFE00400, EncodingRow::LdrhImm);
        m.bind_bits(0xF8600800, 0xFFE00C00, EncodingRow::LdrReg64);
        m.bind_bits(0xB8600800, 0xFFE00C00, EncodingRow::LdrReg32);
        proof {
            assert(m.rows() =~= a64_rows());
        }
        AArch64Decoder { matcher: m }
    }

    /// Decodes one 32-bit instruction word: the first matching row's typed
    /// instruction, with all operand fields well formed, or
    /// `UndefinedEncoding(word)` exactly when no row matches.
    pub fn decode(&self, raw_instr: u32) -> (r: Result<AArch64Instr, TranslateError>)
        ensures
            r == spec_decode(raw_instr),
            r matches Ok(instr) ==> instr.wf(),
    {
        proof {
            use_type_invariant(self);
            if spec_dispatch(a64_rows(), raw_instr) is Some {
                let k = lemma_dispatch_yields_row(a64_rows(), raw_instr);
                lemma_row_instr_wf(a64_rows()[k].handler, raw_instr);
            }
        }
        match self.matcher.handle(raw_instr) {
            Some(instr) => Ok(instr),
            Option::None => Err(TranslateError::UndefinedEncoding(raw_instr)),
        }
    }
}

/// Every instruction a row handler builds is well formed: each field is an
/// extraction no wider than the bound its record demands.
pub proof fn lemma_row_instr_wf(row: EncodingRow, w: u32)
    ensures
        row_instr(row, w).wf(),
{
    match row {
        EncodingRow::MovzVar32 => {
            assert(row_instr(EncodingRow::MovzVar32, w).wf());
        },
        EncodingRow::MovzVar64 => {
            assert(row_instr(EncodingRow::MovzVar64, w).wf());
        },
        EncodingRow::Adr => {
            assert(row_instr(EncodingRow::Adr, w).wf());
        },
        EncodingRow::Adrp => {
            assert(row_instr(EncodingRow::Adrp, w).wf());
        },
        EncodingRow::OrrShiftedReg32 => {
            assert(row_instr(EncodingRow::OrrShiftedReg32, w).wf());
        },
        EncodingRow::OrrShiftedReg64 => {
            assert(row_instr(EncodingRow::OrrShiftedReg64, w).wf());
        },
        EncodingRow::AddShiftedReg64 => {
            assert(row_instr(EncodingRow::AddShiftedReg64, w).wf());
        },
        EncodingRow::SubShiftedReg64 => {
            assert(row_instr(EncodingRow::SubShiftedReg64, w).wf());
        },
        EncodingRow::SubsShiftedReg64 => {
            assert(row_instr(EncodingRow::SubsShiftedReg64, w).wf());
        },
        EncodingRow::AddImm64 => {
            assert(row_instr(EncodingRow::AddImm64, w).wf());
        },
        EncodingRow::SubImm64 => {
            assert(row_instr(EncodingRow::SubImm64, w).wf());
        },
        EncodingRow::SubsImm32 => {
            assert(row_instr(EncodingRow::SubsImm32, w).wf());
        },
        EncodingRow::SubsImm64 => {
            assert(row_instr(EncodingRow::SubsImm64, w).wf());
        },
        EncodingRow::AndsImm64 => {
            assert(row_instr(EncodingRow::AndsImm64, w).wf());
        },
        EncodingRow::Sbfm64 => {
            assert(row_instr(EncodingRow::Sbfm64, w).wf());
        },
        EncodingRow::Ubfm64 => {
            assert(row_instr(EncodingRow::Ubfm64, w).wf());
        },
        EncodingRow::LdrImm32 => {
            assert(row_instr(EncodingRow::LdrImm32, w).wf());
        },
        EncodingRow::LdrImm64 => {
            assert(row_instr(EncodingRow::LdrImm64, w).wf());
        },
        EncodingRow::StrImm32 => {
            assert(row_instr(EncodingRow::StrImm32, w).wf());
        },
        EncodingRow::StrImm64 => {
            assert(row_instr(EncodingRow::StrImm64, w).wf());
        },
        EncodingRow::LdrbImm => {
            assert(row_instr(EncodingRow::LdrbImm, w).wf());
        },
        EncodingRow::LdrhImm => {
            assert(row_instr(EncodingRow::LdrhImm, w).wf());
        },
        EncodingRow::LdrReg32 => {
            assert(row_instr(EncodingRow::LdrReg32, w).wf());
        },
        EncodingRow::LdrReg64 => {
            assert(row_instr(EncodingRow::LdrReg64, w).wf());
        },
        EncodingRow::StpVar32 => {
            assert(row_instr(EncodingRow::StpVar32, w).wf());
        },
        EncodingRow::StpVar64 => {
            assert(row_instr(EncodingRow::StpVar64, w).wf());
        },
        EncodingRow::LdrLitVar64 => {
            assert(row_instr(EncodingRow::LdrLitVar64, w).wf());
        },
        EncodingRow::Cbz64 => {
            assert(row_instr(EncodingRow::Cbz64, w).wf());
        },
        EncodingRow::Cbnz32 => {
            assert(row_instr(EncodingRow::Cbnz32, w).wf());
        },
        EncodingRow::Cbnz64 => {
            assert(row_instr(EncodingRow::Cbnz64, w).wf());
        },
        EncodingRow::BImm => {
            assert(row_instr(EncodingRow::BImm, w).wf());
        },
        EncodingRow::BlImm => {
            assert(row_instr(EncodingRow::BlImm, w).wf());
        },
        EncodingRow::BCond => {
            assert(row_instr(EncodingRow::BCond, w).wf());
        },
        EncodingRow::Br => {
            assert(row_instr(EncodingRow::Br, w).wf());
        },
        EncodingRow::Blr => {
            assert(row_instr(EncodingRow::Blr, w).wf());
        },
        EncodingRow::Ret => {
            assert(row_instr(EncodingRow::Ret, w).wf());
        },
        EncodingRow::CcmpImmVar32 => {
            assert(row_instr(EncodingRow::CcmpImmVar32, w).wf());
        },
        EncodingRow::CcmpImmVar64 => {
            assert(row_instr(EncodingRow::CcmpImmVar64, w).wf());
        },
        EncodingRow::Csel32 => {
            assert(row_instr(EncodingRow::Csel32, w).wf());
        },
        EncodingRow::Svc => {
            assert(row_instr(EncodingRow::Svc, w).wf());
        },
        EncodingRow::Brk => {
            assert(row_instr(EncodingRow::Brk, w).wf());
        },
        EncodingRow::Hlt => {
            assert(row_instr(EncodingRow::Hlt, w).wf());
        },
        EncodingRow::Mrs => {
            assert(row_instr(EncodingRow::Mrs, w).wf());
        },
        EncodingRow::AddExtReg64 => {
            assert(row_instr(EncodingRow::AddExtReg64, w).wf());
        },
        EncodingRow::Nop => {
            assert(row_instr(EncodingRow::Nop, w).wf());
        },
        EncodingRow::Yield => {
            assert(row_instr(EncodingRow::Yield, w).wf());
        },
        EncodingRow::Wfe => {
            assert(row_instr(EncodingRow::Wfe, w).wf());
        },
        EncodingRow::Wfi => {
            assert(row_instr(EncodingRow::Wfi, w).wf());
        },
        EncodingRow::Sev => {
            assert(row_instr(EncodingRow::Sev, w).wf());
        },
        EncodingRow::Sevl => {
            assert(row_instr(EncodingRow::Sevl, w).wf());
        },
    }
}

/// The unique 32-bit word an instruction re-encodes to: the class base
/// word with every operand field shifted back into its bit range.
pub open spec fn spec_encode(instr: AArch64Instr) -> u32 {
    match instr {
        AArch64Instr::MovzVar32(op) => 0x52800000u32 | ((op.hw as u32) << 21u32) | ((op.imm16 as u32) << 5u32) | (op.rd as u32),
        AArch64Instr::MovzVar64(op) => 0xD2800000u32 | ((op.hw as u32) << 21u32) | ((op.imm16 as u32) << 5u32) | (op.rd as u32),
        AArch64Instr::Adr(op) => 0x10000000u32 | ((op.immlo as u32) << 29u32) | ((op.immhi as u32) << 5u32) | (op.rd as u32),
        AArch64Instr::Adrp(op) => 0x90000000u32 | ((op.immlo as u32) << 29u32) | ((op.immhi as u32) << 5u32) | (op.rd as u32),
        AArch64Instr::OrrShiftedReg32(op) => 0x2A000000u32 | ((op.shift as u32) << 22u32) | ((op.rm as u32) << 16u32) | ((op.imm6 as u32) << 10u32) | ((op.rn as u32) << 5u32) | (op.rd as u32),
        AArch64Instr::OrrShiftedReg64(op) => 0xAA000000u32 | ((op.shift as u32) << 22u32) | ((op.rm as u32) << 16u32) | ((op.imm6 as u32) << 10u32) | ((op.rn as u32) << 5u32) | (op.rd as u32),
        AArch64Instr::AddShiftedReg64(op) => 0x8B000000u32 | ((op.shift as u32) << 22u32) | ((op.rm as u32) << 16u32) | ((op.imm6 as u32) << 10u32) | ((op.rn as u32) << 5u32) | (op.rd as u32),
        AArch64Instr::SubShiftedReg64(op) => 0xCB000000u32 | ((op.shift as u32) << 22u32) | ((op.rm as u32) << 16u32) | ((op.imm6 as u32) << 10u32) | ((op.rn as u32) << 5u32) | (op.rd as u32),
        AArch64Instr::SubsShiftedReg64(op) => 0xEB000000u32 | ((op.shift as u32) << 22u32) | ((op.rm as u32) << 16u32) | ((op.imm6 as u32) << 10u32) | ((op.rn as u32) << 5u32) | (op.rd as u32),
        AArch64Instr::AddImm64(op) => 0x91000000u32 | ((op.sh as u32) << 22u32) | ((op.imm12 as u32) << 10u32) | ((op.rn as u32) << 5u32) | (op.rd as u32),
        AArch64Instr::SubImm64(op) => 0xD1000000u32 | ((op.sh as u32) << 22u32) | ((op.imm12 as u32) << 10u32) | ((op.rn as u32) << 5u32) | (op.rd as u32),
        AArch64Instr::SubsImm32(op) => 0x71000000u32 | ((op.sh as u32) << 22u32) | ((op.imm12 as u32) << 10u32) | ((op.rn as u32) << 5u32) | (op.rd as u32),
        AArch64Instr::SubsImm64(op) => 0xF1000000u32 | ((op.sh as u32) << 22u32) | ((op.imm12 as u32) << 10u32) | ((op.rn as u32) << 5u32) | (op.rd as u32),
        AArch64Instr::AndsImm64(op) => 0xF2000000u32 | ((op.n as u32) << 22u32) | ((op.immr as u32) << 16u32) | ((op.imms as u32) << 10u32) | ((op.rn as u32) << 5u32) | (op.rd as u32),
        AArch64Instr::Sbfm64(op) => 0x93000000u32 | ((op.n as u32) << 22u32) | ((op.immr as u32) << 16u32) | ((op.imms as u32) << 10u32) | ((op.rn as u32) << 5u32) | (op.rd as u32),
        AArch64Instr::Ubfm64(op) => 0xD3000000u32 | ((op.n as u32) << 22u32) | ((op.immr as u32) << 16u32) | ((op.imms as u32) << 10u32) | ((op.rn as u32) << 5u32) | (op.rd as u32),
        AArch64Instr::LdrImm32(op) => 0x38000000u32 | ((op.size as u32) << 30u32) | ((op.opc as u32) << 22u32) | ((op.imm12 as u32) << 10u32) | ((op.rn as u32) << 5u32) | (op.rt as u32),
        AArch64Instr::LdrImm64(op) => 0x38000000u32 | ((op.size as u32) << 30u32) | ((op.opc as u32) << 22u32) | ((op.imm12 as u32) << 10u32) | ((op.rn as u32) << 5u32) | (op.rt as u32),
        AArch64Instr::StrImm32(op) => 0x38000000u32 | ((op.size as u32) << 30u32) | ((op.opc as u32) << 22u32) | ((op.imm12 as u32) << 10u32) | ((op.rn as u32) << 5u32) | (op.rt as u32),
        AArch64Instr::StrImm64(op) => 0x38000000u32 | ((op.size as u32) << 30u32) | ((op.opc as u32) << 22u32) | ((op.imm12 as u32) << 10u32) | ((op.rn as u32) << 5u32) | (op.rt as u32),
        AArch64Instr::LdrbImm(op) => 0x38000000u32 | ((op.size as u32) << 30u32) | ((op.opc as u32) << 22u32) | ((op.imm12 as u32) << 10u32) | ((op.rn as u32) << 5u32) | (op.rt as u32),
        AArch64Instr::LdrhImm(op) => 0x38000000u32 | ((op.size as u32) << 30u32) | ((op.opc as u32) << 22u32) | ((op.imm12 as u32) << 10u32) | ((op.rn as u32) << 5u32) | (op.rt as u32),
        AArch64Instr::LdrReg32(op) => 0x38600800u32 | ((op.size as u32) << 30u32) | ((op.rm as u32) << 16u32) | ((op.option as u32) << 13u32) | ((op.s as u32) << 12u32) | ((op.rn as u32) << 5u32) | (op.rt as u32),
        AArch64Instr::LdrReg64(op) => 0x38600800u32 | ((op.size as u32) << 30u32) | ((op.rm as u32) << 16u32) | ((op.option as u32) << 13u32) | ((op.s as u32) << 12u32) | ((op.rn as u32) << 5u32) | (op.rt as u32),
        AArch64Instr::StpVar32(op) => 0x28000000u32 | ((op.o as u32) << 23u32) | ((op.imm7 as u32) << 15u32) | ((op.rt2 as u32) << 10u32) | ((op.rn as u32) << 5u32) | (op.rt as u32),
        AArch64Instr::StpVar64(op) => 0xA8000000u32 | ((op.o as u32) << 23u32) | ((op.imm7 as u32) << 15u32) | ((op.rt2 as u32) << 10u32) | ((op.rn as u32) << 5u32) | (op.rt as u32),
        AArch64Instr::LdrLitVar64(op) => 0x58000000u32 | ((op.imm19 as u32) << 5u32) | (op.rt as u32),
        AArch64Instr::Cbz64(op) => 0xB4000000u32 | ((op.imm19 as u32) << 5u32) | (op.rt as u32),
        AArch64Instr::Cbnz32(op) => 0x35000000u32 | ((op.imm19 as u32) << 5u32) | (op.rt as u32),
        AArch64Instr::Cbnz64(op) => 0xB5000000u32 | ((op.imm19 as u32) << 5u32) | (op.rt as u32),
        AArch64Instr::BImm(op) => 0x14000000u32 | (op.imm26 as u32),
        AArch64Instr::BlImm(op) => 0x94000000u32 | (op.imm26 as u32),
        AArch64Instr::BCond(op) => 0x54000000u32 | ((op.imm19 as u32) << 5u32) | (op.cond as u32),
        AArch64Instr::Br(op) => 0xD61F0000u32 | ((op.rn as u32) << 5u32),
        AArch64Instr::Blr(op) => 0xD63F0000u32 | ((op.rn as u32) << 5u32),
        AArch64Instr::Ret(op) => 0xD65F0000u32 | ((op.rn as u32) << 5u32),
        AArch64Instr::CcmpImmVar32(op) => 0x7A400800u32 | ((op.imm5 as u32) << 16u32) | ((op.cond as u32) << 12u32) | ((op.rn as u32) << 5u32) | (op.nzcv as u32),
        AArch64Instr::CcmpImmVar64(op) => 0xFA400800u32 | ((op.imm5 as u32) << 16u32) | ((op.cond as u32) << 12u32) | ((op.rn as u32) << 5u32) | (op.nzcv as u32),
        AArch64Instr::Csel32(op) => 0x1A800000u32 | ((op.rm as u32) << 16u32) | ((op.cond as u32) << 12u32) | ((op.rn as u32) << 5u32) | (op.rd as u32),
        AArch64Instr::Svc(op) => 0xD4000001u32 | ((op.imm16 as u32) << 5u32),
        AArch64Instr::Brk(op) => 0xD4200000u32 | ((op.imm16 as u32) << 5u32),
        AArch64Instr::Hlt(op) => 0xD4400000u32 | ((op.imm16 as u32) << 5u32),
        AArch64Instr::Mrs(op) => 0xD5300000u32 | ((op.o0 as u32) << 19u32) | ((op.op1 as u32) << 16u32) | ((op.crn as u32) << 12u32) | ((op.crm as u32) << 8u32) | ((op.op2 as u32) << 5u32) | (op.rt as u32),
        AArch64Instr::AddExtReg64(op) => 0x8B200000u32 | ((op.rm as u32) << 16u32) | ((op.option as u32) << 13u32) | ((op.imm3 as u32) << 10u32) | ((op.rn as u32) << 5u32) | (op.rd as u32),
        AArch64Instr::Nop => 0xD503201Fu32,
        AArch64Instr::Yield => 0xD503203Fu32,
        AArch64Instr::Wfe => 0xD503205Fu32,
        AArch64Instr::Wfi => 0xD503207Fu32,
        AArch64Instr::Sev => 0xD503209Fu32,
        AArch64Instr::Sevl => 0xD50320BFu32,
    }
}

/// Re-encodes an instruction into its 32-bit word.
pub fn encode(instr: &AArch64Instr) -> (r: u32)
    ensures
        r == spec_encode(*instr),
{
    match instr {
        AArch64Instr::MovzVar32(op) => 0x52800000u32 | ((op.hw as u32) << 21u32) | ((op.imm16 as u32) << 5u32) | (op.rd as u32),
        AArch64Instr::MovzVar64(op) => 0xD2800000u32 | ((op.hw as u32) << 21u32) | ((op.imm16 as u32) << 5u32) | (op.rd as u32),
        AArch64Instr::Adr(op) => 0x10000000u32 | ((op.immlo as u32) << 29u32) | ((op.immhi as u32) << 5u32) | (op.rd as u32),
        AArch64Instr::Adrp(op) => 0x90000000u32 | ((op.immlo as u32) << 29u32) | ((op.immhi as u32) << 5u32) | (op.rd as u32),
        AArch64Instr::OrrShiftedReg32(op) => 0x2A000000u32 | ((op.shift as u32) << 22u32) | ((op.rm as u32) << 16u32) | ((op.imm6 as u32) << 10u32) | ((op.rn as u32) << 5u32) | (op.rd as u32),
        AArch64Instr::OrrShiftedReg64(op) => 0xAA000000u32 | ((op.shift as u32) << 22u32) | ((op.rm as u32) << 16u32) | ((op.imm6 as u32) << 10u32) | ((op.rn as u32) << 5u32) | (op.rd as u32),
        AArch64Instr::AddShiftedReg64(op) => 0x8B000000u32 | ((op.shift as u32) << 22u32) | ((op.rm as u32) << 16u32) | ((op.imm6 as u32) << 10u32) | ((op.rn as u32) << 5u32) | (op.rd as u32),
        AArch64Instr::SubShiftedReg64(op) => 0xCB000000u32 | ((op.shift as u32) << 22u32) | ((op.rm as u32) << 16u32) | ((op.imm6 as u32) << 10u32) | ((op.rn as u32) << 5u32) | (op.rd as u32),
        AArch64Instr::SubsShiftedReg64(op) => 0xEB000000u32 | ((op.shift as u32) << 22u32) | ((op.rm as u32) << 16u32) | ((op.imm6 as u32) << 10u32) | ((op.rn as u32) << 5u32) | (op.rd as u32),
        AArch64Instr::AddImm64(op) => 0x91000000u32 | ((op.sh as u32) << 22u32) | ((op.imm12 as u32) << 10u32) | ((op.rn as u32) << 5u32) | (op.rd as u32),
        AArch64Instr::SubImm64(op) => 0xD1000000u32 | ((op.sh as u32) << 22u32) | ((op.imm12 as u32) << 10u32) | ((op.rn as u32) << 5u32) | (op.rd as u32),
        AArch64Instr::SubsImm32(op) => 0x71000000u32 | ((op.sh as u32) << 22u32) | ((op.imm12 as u32) << 10u32) | ((op.rn as u32) << 5u32) | (op.rd as u32),
        AArch64Instr::SubsImm64(op) => 0xF1000000u32 | ((op.sh as u32) << 22u32) | ((op.imm12 as u32) << 10u32) | ((op.rn as u32) << 5u32) | (op.rd as u32),
        AArch64Instr::AndsImm64(op) => 0xF2000000u32 | ((op.n as u32) << 22u32) | ((op.immr as u32) << 16u32) | ((op.imms as u32) << 10u32) | ((op.rn as u32) << 5u32) | (op.rd as u32),
        AArch64Instr::Sbfm64(op) => 0x93000000u32 | ((op.n as u32) << 22u32) | ((op.immr as u32) << 16u32) | ((op.imms as u32) << 10u32) | ((op.rn as u32) << 5u32) | (op.rd as u32),
        AArch64Instr::Ubfm64(op) => 0xD3000000u32 | ((op.n as u32) << 22u32) | ((op.immr as u32) << 16u32) | ((op.imms as u32) << 10u32) | ((op.rn as u32) << 5u32) | (op.rd as u32),
        AArch64Instr::LdrImm32(op) => 0x38000000u32 | ((op.size as u32) << 30u32) | ((op.opc as u32) << 22u32) | ((op.imm12 as u32) << 10u32) | ((op.rn as u32) << 5u32) | (op.rt as u32),
        AArch64Instr::LdrImm64(op) => 0x38000000u32 | ((op.size as u32) << 30u32) | ((op.opc as u32) << 22u32) | ((op.imm12 as u32) << 10u32) | ((op.rn as u32) << 5u32) | (op.rt as u32),
        AArch64Instr::StrImm32(op) => 0x38000000u32 | ((op.size as u32) << 30u32) | ((op.opc as u32) << 22u32) | ((op.imm12 as u32) << 10u32) | ((op.rn as u32) << 5u32) | (op.rt as u32),
        AArch64Instr::StrImm64(op) => 0x38000000u32 | ((op.size as u32) << 30u32) | ((op.opc as u32) << 22u32) | ((op.imm12 as u32) << 10u32) | ((op.rn as u32) << 5u32) | (op.rt as u32),
        AArch64Instr::LdrbImm(op) => 0x38000000u32 | ((op.size as u32) << 30u32) | ((op.opc as u32) << 22u32) | ((op.imm12 as u32) << 10u32) | ((op.rn as u32) << 5u32) | (op.rt as u32),
        AArch64Instr::LdrhImm(op) => 0x38000000u32 | ((op.size as u32) << 30u32) | ((op.opc as u32) << 22u32) | ((op.imm12 as u32) << 10u32) | ((op.rn as u32) << 5u32) | (op.rt as u32),
        AArch64Instr::LdrReg32(op) => 0x38600800u32 | ((op.size as u32) << 30u32) | ((op.rm as u32) << 16u32) | ((op.option as u32) << 13u32) | ((op.s as u32) << 12u32) | ((op.rn as u32) << 5u32) | (op.rt as u32),
        AArch64Instr::LdrReg64(op) => 0x38600800u32 | ((op.size as u32) << 30u32) | ((op.rm as u32) << 16u32) | ((op.option as u32) << 13u32) | ((op.s as u32) << 12u32) | ((op.rn as u32) << 5u32) | (op.rt as u32),
        AArch64Instr::StpVar32(op) => 0x28000000u32 | ((op.o as u32) << 23u32) | ((op.imm7 as u32) << 15u32) | ((op.rt2 as u32) << 10u32) | ((op.rn as u32) << 5u32) | (op.rt as u32),
        AArch64Instr::StpVar64(op) => 0xA8000000u32 | ((op.o as u32) << 23u32) | ((op.imm7 as u32) << 15u32) | ((op.rt2 as u32) << 10u32) | ((op.rn as u32) << 5u32) | (op.rt as u32),
        AArch64Instr::LdrLitVar64(op) => 0x58000000u32 | ((op.imm19 as u32) << 5u32) | (op.rt as u32),
        AArch64Instr::Cbz64(op) => 0xB4000000u32 | ((op.imm19 as u32) << 5u32) | (op.rt as u32),
        AArch64Instr::Cbnz32(op) => 0x35000000u32 | ((op.imm19 as u32) << 5u32) | (op.rt as u32),
        AArch64Instr::Cbnz64(op) => 0xB5000000u32 | ((op.imm19 as u32) << 5u32) | (op.rt as u32),
        AArch64Instr::BImm(op) => 0x14000000u32 | (op.imm26 as u32),
        AArch64Instr::BlImm(op) => 0x94000000u32 | (op.imm26 as u32),
        AArch64Instr::BCond(op) => 0x54000000u32 | ((op.imm19 as u32) << 5u32) | (op.cond as u32),
        AArch64Instr::Br(op) => 0xD61F0000u32 | ((op.rn as u32) << 5u32),
        AArch64Instr::Blr(op) => 0xD63F0000u32 | ((op.rn as u32) << 5u32),
        AArch64Instr::Ret(op) => 0xD65F0000u32 | ((op.rn as u32) << 5u32),
        AArch64Instr::CcmpImmVar32(op) => 0x7A400800u32 | ((op.imm5 as u32) << 16u32) | ((op.cond as u32) << 12u32) | ((op.rn as u32) << 5u32) | (op.nzcv as u32),
        AArch64Instr::CcmpImmVar64(op) => 0xFA400800u32 | ((op.imm5 as u32) << 16u32) | ((op.cond as u32) << 12u32) | ((op.rn as u32) << 5u32) | (op.nzcv as u32),
        AArch64Instr::Csel32(op) => 0x1A800000u32 | ((op.rm as u32) << 16u32) | ((op.cond as u32) << 12u32) | ((op.rn as u32) << 5u32) | (op.rd as u32),
        AArch64Instr::Svc(op) => 0xD4000001u32 | ((op.imm16 as u32) << 5u32),
        AArch64Instr::Brk(op) => 0xD4200000u32 | ((op.imm16 as u32) << 5u32),
        AArch64Instr::Hlt(op) => 0xD4400000u32 | ((op.imm16 as u32) << 5u32),
        AArch64Instr::Mrs(op) => 0xD5300000u32 | ((op.o0 as u32) << 19u32) | ((op.op1 as u32) << 16u32) | ((op.crn as u32) << 12u32) | ((op.crm as u32) << 8u32) | ((op.op2 as u32) << 5u32) | (op.rt as u32),
        AArch64Instr::AddExtReg64(op) => 0x8B200000u32 | ((op.rm as u32) << 16u32) | ((op.option as u32) << 13u32) | ((op.imm3 as u32) << 10u32) | ((op.rn as u32) << 5u32) | (op.rd as u32),
        AArch64Instr::Nop => 0xD503201F,
        AArch64Instr::Yield => 0xD503203F,
        AArch64Instr::Wfe => 0xD503205F,
        AArch64Instr::Wfi => 0xD503207F,
        AArch64Instr::Sev => 0xD503209F,
        AArch64Instr::Sevl => 0xD50320BF,
    }
}

proof fn lemma_reassemble_0(w: u32)
    by (bit_vector)
    ensures
        (w & 0xFFFFFFFFu32 == 0xD503201Fu32 & 0xFFFFFFFFu32) ==> 0xD503201Fu32 == w,
        (w & 0xFFFFFFFFu32 == 0xD503203Fu32 & 0xFFFFFFFFu32) ==> 0xD503203Fu32 == w,
        (w & 0xFFFFFFFFu32 == 0xD503205Fu32 & 0xFFFFFFFFu32) ==> 0xD503205Fu32 == w,
        (w & 0xFFFFFFFFu32 == 0xD503207Fu32 & 0xFFFFFFFFu32) ==> 0xD503207Fu32 == w,
        (w & 0xFFFFFFFFu32 == 0xD503209Fu32 & 0xFFFFFFFFu32) ==> 0xD503209Fu32 == w,
        (w & 0xFFFFFFFFu32 == 0xD50320BFu32 & 0xFFFFFFFFu32) ==> 0xD50320BFu32 == w,
        (w & 0xFFE0001Fu32 == 0xD4000001u32 & 0xFFE0001Fu32) ==> 0xD4000001u32 | (((fld(w, 5, 21) as u16) as u32) << 5u32) == w,
        (w & 0xFFE0001Fu32 == 0xD4200000u32 & 0xFFE0001Fu32) ==> 0xD4200000u32 | (((fld(w, 5, 21) as u16) as u32) << 5u32) == w,
{
}

proof fn lemma_reassemble_1(w: u32)
    by (bit_vector)
    ensures
        (w & 0xFFE0001Fu32 == 0xD4400000u32 & 0xFFE0001Fu32) ==> 0xD4400000u32 | (((fld(w, 5, 21) as u16) as u32) << 5u32) == w,
        (w & 0xFFF00000u32 == 0xD5300000u32 & 0xFFF00000u32) ==> 0xD5300000u32 | (((fld(w, 19, 20) as u8) as u32) << 19u32) | (((fld(w, 16, 19) as u8) as u32) << 16u32) | (((fld(w, 12, 16) as u8) as u32) << 12u32) | (((fld(w, 8, 12) as u8) as u32) << 8u32) | (((fld(w, 5, 8) as u8) as u32) << 5u32) | ((fld(w, 0, 5) as u8) as u32) == w,
        (w & 0xFFFFFC1Fu32 == 0xD61F0000u32 & 0xFFFFFC1Fu32) ==> 0xD61F0000u32 | (((fld(w, 5, 10) as u8) as u32) << 5u32) == w,
        (w & 0xFFFFFC1Fu32 == 0xD63F0000u32 & 0xFFFFFC1Fu32) ==> 0xD63F0000u32 | (((fld(w, 5, 10) as u8) as u32) << 5u32) == w,
        (w & 0xFFFFFC1Fu32 == 0xD65F0000u32 & 0xFFFFFC1Fu32) ==> 0xD65F0000u32 | (((fld(w, 5, 10) as u8) as u32) << 5u32) == w,
        (w & 0x9F000000u32 == 0x10000000u32 & 0x9F000000u32) ==> 0x10000000u32 | (((fld(w, 29, 31) as u8) as u32) << 29u32) | (fld(w, 5, 24) << 5u32) | ((fld(w, 0, 5) as u8) as u32) == w,
        (w & 0x9F000000u32 == 0x90000000u32 & 0x9F000000u32) ==> 0x90000000u32 | (((fld(w, 29, 31) as u8) as u32) << 29u32) | (fld(w, 5, 24) << 5u32) | ((fld(w, 0, 5) as u8) as u32) == w,
        (w & 0xFFC00000u32 == 0x52800000u32 & 0xFFC00000u32) ==> 0x52800000u32 | (((fld(w, 21, 23) as u8) as u32) << 21u32) | (((fld(w, 5, 21) as u16) as u32) << 5u32) | ((fld(w, 0, 5) as u8) as u32) == w,
{
}

proof fn lemma_reassemble_2(w: u32)
    by (bit_vector)
    ensures
        (w & 0xFF800000u32 == 0xD2800000u32 & 0xFF800000u32) ==> 0xD2800000u32 | (((fld(w, 21, 23) as u8) as u32) << 21u32) | (((fld(w, 5, 21) as u16) as u32) << 5u32) | ((fld(w, 0, 5) as u8) as u32) == w,
        (w & 0xFF800000u32 == 0x91000000u32 & 0xFF800000u32) ==> 0x91000000u32 | (((fld(w, 22, 23) as u8) as u32) << 22u32) | (((fld(w, 10, 22) as u16) as u32) << 10u32) | (((fld(w, 5, 10) as u8) as u32) << 5u32) | ((fld(w, 0, 5) as u8) as u32) == w,
        (w & 0xFF800000u32 == 0xD1000000u32 & 0xFF800000u32) ==> 0xD1000000u32 | (((fld(w, 22, 23) as u8) as u32) << 22u32) | (((fld(w, 10, 22) as u16) as u32) << 10u32) | (((fld(w, 5, 10) as u8) as u32) << 5u32) | ((fld(w, 0, 5) as u8) as u32) == w,
        (w & 0xFF800000u32 == 0x71000000u32 & 0xFF800000u32) ==> 0x71000000u32 | (((fld(w, 22, 23) as u8) as u32) << 22u32) | (((fld(w, 10, 22) as u16) as u32) << 10u32) | (((fld(w, 5, 10) as u8) as u32) << 5u32) | ((fld(w, 0, 5) as u8) as u32) == w,
        (w & 0xFF800000u32 == 0xF1000000u32 & 0xFF800000u32) ==> 0xF1000000u32 | (((fld(w, 22, 23) as u8) as u32) << 22u32) | (((fld(w, 10, 22) as u16) as u32) << 10u32) | (((fld(w, 5, 10) as u8) as u32) << 5u32) | ((fld(w, 0, 5) as u8) as u32) == w,
        (w & 0xFF800000u32 == 0xF2000000u32 & 0xFF800000u32) ==> 0xF2000000u32 | (((fld(w, 22, 23) as u8) as u32) << 22u32) | (((fld(w, 16, 22) as u8) as u32) << 16u32) | (((fld(w, 10, 16) as u8) as u32) << 10u32) | (((fld(w, 5, 10) as u8) as u32) << 5u32) | ((fld(w, 0, 5) as u8) as u32) == w,
        (w & 0xFFC00000u32 == 0x93400000u32 & 0xFFC00000u32) ==> 0x93000000u32 | (((fld(w, 22, 23) as u8) as u32) << 22u32) | (((fld(w, 16, 22) as u8) as u32) << 16u32) | (((fld(w, 10, 16) as u8) as u32) << 10u32) | (((fld(w, 5, 10) as u8) as u32) << 5u32) | ((fld(w, 0, 5) as u8) as u32) == w,
        (w & 0xFFC00000u32 == 0xD3400000u32 & 0xFFC00000u32) ==> 0xD3000000u32 | (((fld(w, 22, 23) as u8) as u32) << 22u32) | (((fld(w, 16, 22) as u8) as u32) << 16u32) | (((fld(w, 10, 16) as u8) as u32) << 10u32) | (((fld(w, 5, 10) as u8) as u32) << 5u32) | ((fld(w, 0, 5) as u8) as u32) == w,
{
}

proof fn lemma_reassemble_3(w: u32)
    by (bit_vector)
    ensures
        (w & 0xFF200000u32 == 0x2A000000u32 & 0xFF200000u32) ==> 0x2A000000u32 | (((fld(w, 22, 24) as u8) as u32) << 22u32) | (((fld(w, 16, 21) as u8) as u32) << 16u32) | (((fld(w, 10, 16) as u8) as u32) << 10u32) | (((fld(w, 5, 10) as u8) as u32) << 5u32) | ((fld(w, 0, 5) as u8) as u32) == w,
        (w & 0xFF200000u32 == 0xAA000000u32 & 0xFF200000u32) ==> 0xAA000000u32 | (((fld(w, 22, 24) as u8) as u32) << 22u32) | (((fld(w, 16, 21) as u8) as u32) << 16u32) | (((fld(w, 10, 16) as u8) as u32) << 10u32) | (((fld(w, 5, 10) as u8) as u32) << 5u32) | ((fld(w, 0, 5) as u8) as u32) == w,
        (w & 0xFF200000u32 == 0x8B000000u32 & 0xFF200000u32) ==> 0x8B000000u32 | (((fld(w, 22, 24) as u8) as u32) << 22u32) | (((fld(w, 16, 21) as u8) as u32) << 16u32) | (((fld(w, 10, 16) as u8) as u32) << 10u32) | (((fld(w, 5, 10) as u8) as u32) << 5u32) | ((fld(w, 0, 5) as u8) as u32) == w,
        (w & 0xFF200000u32 == 0xCB000000u32 & 0xFF200000u32) ==> 0xCB000000u32 | (((fld(w, 22, 24) as u8) as u32) << 22u32) | (((fld(w, 16, 21) as u8) as u32) << 16u32) | (((fld(w, 10, 16) as u8) as u32) << 10u32) | (((fld(w, 5, 10) as u8) as u32) << 5u32) | ((fld(w, 0, 5) as u8) as u32) == w,
        (w & 0xFF200000u32 == 0xEB000000u32 & 0xFF200000u32) ==> 0xEB000000u32 | (((fld(w, 22, 24) as u8) as u32) << 22u32) | (((fld(w, 16, 21) as u8) as u32) << 16u32) | (((fld(w, 10, 16) as u8) as u32) << 10u32) | (((fld(w, 5, 10) as u8) as u32) << 5u32) | ((fld(w, 0, 5) as u8) as u32) == w,
        (w & 0xFFE00000u32 == 0x8B200000u32 & 0xFFE00000u32) ==> 0x8B200000u32 | (((fld(w, 16, 21) as u8) as u32) << 16u32) | (((fld(w, 13, 16) as u8) as u32) << 13u32) | (((fld(w, 10, 13) as u8) as u32) << 10u32) | (((fld(w, 5, 10) as u8) as u32) << 5u32) | ((fld(w, 0, 5) as u8) as u32) == w,
        (w & 0xFC000000u32 == 0x14000000u32 & 0xFC000000u32) ==> 0x14000000u32 | fld(w, 0, 26) == w,
        (w & 0xFC000000u32 == 0x94000000u32 & 0xFC000000u32) ==> 0x94000000u32 | fld(w, 0, 26) == w,
{
}

proof fn lemma_reassemble_4(w: u32)
    by (bit_vector)
    ensures
        (w & 0xFF000010u32 == 0x54000000u32 & 0xFF000010u32) ==> 0x54000000u32 | (fld(w, 5, 24) << 5u32) | ((fld(w, 0, 4) as u8) as u32) == w,
        (w & 0xFF000000u32 == 0xB4000000u32 & 0xFF000000u32) ==> 0xB4000000u32 | (fld(w, 5, 24) << 5u32) | ((fld(w, 0, 5) as u8) as u32) == w,
        (w & 0xFF000000u32 == 0xB5000000u32 & 0xFF000000u32) ==> 0xB5000000u32 | (fld(w, 5, 24) << 5u32) | ((fld(w, 0, 5) as u8) as u32) == w,
        (w & 0xFF000000u32 == 0x35000000u32 & 0xFF000000u32) ==> 0x35000000u32 | (fld(w, 5, 24) << 5u32) | ((fld(w, 0, 5) as u8) as u32) == w,
        (w & 0xFFE00C10u32 == 0x7A400800u32 & 0xFFE00C10u32) ==> 0x7A400800u32 | (((fld(w, 16, 21) as u8) as u32) << 16u32) | (((fld(w, 12, 16) as u8) as u32) << 12u32) | (((fld(w, 5, 10) as u8) as u32) << 5u32) | ((fld(w, 0, 4) as u8) as u32) == w,
        (w & 0xFFE00C10u32 == 0xFA400800u32 & 0xFFE00C10u32) ==> 0xFA400800u32 | (((fld(w, 16, 21) as u8) as u32) << 16u32) | (((fld(w, 12, 16) as u8) as u32) << 12u32) | (((fld(w, 5, 10) as u8) as u32) << 5u32) | ((fld(w, 0, 4) as u8) as u32) == w,
        (w & 0xFFE00C00u32 == 0x1A800000u32 & 0xFFE00C00u32) ==> 0x1A800000u32 | (((fld(w, 16, 21) as u8) as u32) << 16u32) | (((fld(w, 12, 16) as u8) as u32) << 12u32) | (((fld(w, 5, 10) as u8) as u32) << 5u32) | ((fld(w, 0, 5) as u8) as u32) == w,
        (w & 0xFF000000u32 == 0x58000000u32 & 0xFF000000u32) ==> 0x58000000u32 | (fld(w, 5, 24) << 5u32) | ((fld(w, 0, 5) as u8) as u32) == w,
{
}

proof fn lemma_reassemble_5(w: u32)
    by (bit_vector)
    ensures
        (w & 0xFFC00000u32 == 0xA8800000u32 & 0xFFC00000u32) ==> 0xA8000000u32 | (((fld(w, 23, 26) as u8) as u32) << 23u32) | (((fld(w, 15, 22) as u8) as u32) << 15u32) | (((fld(w, 10, 15) as u8) as u32) << 10u32) | (((fld(w, 5, 10) as u8) as u32) << 5u32) | ((fld(w, 0, 5) as u8) as u32) == w,
        (w & 0xFF400000u32 == 0xA9000000u32 & 0xFF400000u32) ==> 0xA8000000u32 | (((fld(w, 23, 26) as u8) as u32) << 23u32) | (((fld(w, 15, 22) as u8) as u32) << 15u32) | (((fld(w, 10, 15) as u8) as u32) << 10u32) | (((fld(w, 5, 10) as u8) as u32) << 5u32) | ((fld(w, 0, 5) as u8) as u32) == w,
        (w & 0xFFC00000u32 == 0x28800000u32 & 0xFFC00000u32) ==> 0x28000000u32 | (((fld(w, 23, 26) as u8) as u32) << 23u32) | (((fld(w, 15, 22) as u8) as u32) << 15u32) | (((fld(w, 10, 15) as u8) as u32) << 10u32) | (((fld(w, 5, 10) as u8) as u32) << 5u32) | ((fld(w, 0, 5) as u8) as u32) == w,
        (w & 0xFF400000u32 == 0x29000000u32 & 0xFF400000u32) ==> 0x28000000u32 | (((fld(w, 23, 26) as u8) as u32) << 23u32) | (((fld(w, 15, 22) as u8) as u32) << 15u32) | (((fld(w, 10, 15) as u8) as u32) << 10u32) | (((fld(w, 5, 10) as u8) as u32) << 5u32) | ((fld(w, 0, 5) as u8) as u32) == w,
        (w & 0xFFC00000u32 == 0xF9400000u32 & 0xFFC00000u32) ==> 0x38000000u32 | (((fld(w, 30, 32) as u8) as u32) << 30u32) | (((fld(w, 22, 26) as u8) as u32) << 22u32) | (((fld(w, 10, 22) as u16) as u32) << 10u32) | (((fld(w, 5, 10) as u8) as u32) << 5u32) | ((fld(w, 0, 5) as u8) as u32) == w,
        (w & 0xFFE00400u32 == 0xF8400400u32 & 0xFFE00400u32) ==> 0x38000000u32 | (((fld(w, 30, 32) as u8) as u32) << 30u32) | (((fld(w, 22, 26) as u8) as u32) << 22u32) | (((fld(w, 10, 22) as u16) as u32) << 10u32) | (((fld(w, 5, 10) as u8) as u32) << 5u32) | ((fld(w, 0, 5) as u8) as u32) == w,
        (w & 0xFFC00000u32 == 0xB9400000u32 & 0xFFC00000u32) ==> 0x38000000u32 | (((fld(w, 30, 32) as u8) as u32) << 30u32) | (((fld(w, 22, 26) as u8) as u32) << 22u32) | (((fld(w, 10, 22) as u16) as u32) << 10u32) | (((fld(w, 5, 10) as u8) as u32) << 5u32) | ((fld(w, 0, 5) as u8) as u32) == w,
        (w & 0xFFE00400u32 == 0xB8400400u32 & 0xFFE00400u32) ==> 0x38000000u32 | (((fld(w, 30, 32) as u8) as u32) << 30u32) | (((fld(w, 22, 26) as u8) as u32) << 22u32) | (((fld(w, 10, 22) as u16) as u32) << 10u32) | (((fld(w, 5, 10) as u8) as u32) << 5u32) | ((fld(w, 0, 5) as u8) as u32) == w,
{
}

proof fn lemma_reassemble_6(w: u32)
    by (bit_vector)
    ensures
        (w & 0xFFC00000u32 == 0xF9000000u32 & 0xFFC00000u32) ==> 0x38000000u32 | (((fld(w, 30, 32) as u8) as u32) << 30u32) | (((fld(w, 22, 26) as u8) as u32) << 22u32) | (((fld(w, 10, 22) as u16) as u32) << 10u32) | (((fld(w, 5, 10) as u8) as u32) << 5u32) | ((fld(w, 0, 5) as u8) as u32) == w,
        (w & 0xFFE00400u32 == 0xF8000400u32 & 0xFFE00400u32) ==> 0x38000000u32 | (((fld(w, 30, 32) as u8) as u32) << 30u32) | (((fld(w, 22, 26) as u8) as u32) << 22u32) | (((fld(w, 10, 22) as u16) as u32) << 10u32) | (((fld(w, 5, 10) as u8) as u32) << 5u32) | ((fld(w, 0, 5) as u8) as u32) == w,
        (w & 0xFFC00000u32 == 0xB9000000u32 & 0xFFC00000u32) ==> 0x38000000u32 | (((fld(w, 30, 32) as u8) as u32) << 30u32) | (((fld(w, 22, 26) as u8) as u32) << 22u32) | (((fld(w, 10, 22) as u16) as u32) << 10u32) | (((fld(w, 5, 10) as u8) as u32) << 5u32) | ((fld(w, 0, 5) as u8) as u32) == w,
        (w & 0xFFE00400u32 == 0xB8000400u32 & 0xFFE00400u32) ==> 0x38000000u32 | (((fld(w, 30, 32) as u8) as u32) << 30u32) | (((fld(w, 22, 26) as u8) as u32) << 22u32) | (((fld(w, 10, 22) as u16) as u32) << 10u32) | (((fld(w, 5, 10) as u8) as u32) << 5u32) | ((fld(w, 0, 5) as u8) as u32) == w,
        (w & 0xFFC00000u32 == 0x39400000u32 & 0xFFC00000u32) ==> 0x38000000u32 | (((fld(w, 30, 32) as u8) as u32) << 30u32) | (((fld(w, 22, 26) as u8) as u32) << 22u32) | (((fld(w, 10, 22) as u16) as u32) << 10u32) | (((fld(w, 5, 10) as u8) as u32) << 5u32) | ((fld(w, 0, 5) as u8) as u32) == w,
        (w & 0xFFE00400u32 == 0x38400400u32 & 0xFFE00400u32) ==> 0x38000000u32 | (((fld(w, 30, 32) as u8) as u32) << 30u32) | (((fld(w, 22, 26) as u8) as u32) << 22u32) | (((fld(w, 10, 22) as u16) as u32) << 10u32) | (((fld(w, 5, 10) as u8) as u32) << 5u32) | ((fld(w, 0, 5) as u8) as u32) == w,
        (w & 0xFFC00000u32 == 0x79400000u32 & 0xFFC00000u32) ==> 0x38000000u32 | (((fld(w, 30, 32) as u8) as u32) << 30u32) | (((fld(w, 22, 26) as u8) as u32) << 22u32) | (((fld(w, 10, 22) as u16) as u32) << 10u32) | (((fld(w, 5, 10) as u8) as u32) << 5u32) | ((fld(w, 0, 5) as u8) as u32) == w,
        (w & 0xFFE00400u32 == 0x78400400u32 & 0xFFE00400u32) ==> 0x38000000u32 | (((fld(w, 30, 32) as u8) as u32) << 30u32) | (((fld(w, 22, 26) as u8) as u32) << 22u32) | (((fld(w, 10, 22) as u16) as u32) << 10u32) | (((fld(w, 5, 10) as u8) as u32) << 5u32) | ((fld(w, 0, 5) as u8) as u32) == w,
{
}

proof fn lemma_reassemble_7(w: u32)
    by (bit_vector)
    ensures
        (w & 0xFFE00C00u32 == 0xF8600800u32 & 0xFFE00C00u32) ==> 0x38600800u32 | (((fld(w, 30, 32) as u8) as u32) << 30u32) | (((fld(w, 16, 21) as u8) as u32) << 16u32) | (((fld(w, 13, 16) as u8) as u32) << 13u32) | (((fld(w, 12, 13) as u8) as u32) << 12u32) | (((fld(w, 5, 10) as u8) as u32) << 5u32) | ((fld(w, 0, 5) as u8) as u32) == w,
        (w & 0xFFE00C00u32 == 0xB8600800u32 & 0xFFE00C00u32) ==> 0x38600800u32 | (((fld(w, 30, 32) as u8) as u32) << 30u32) | (((fld(w, 16, 21) as u8) as u32) << 16u32) | (((fld(w, 13, 16) as u8) as u32) << 13u32) | (((fld(w, 12, 13) as u8) as u32) << 12u32) | (((fld(w, 5, 10) as u8) as u32) << 5u32) | ((fld(w, 0, 5) as u8) as u32) == w,
{
}

/// Re-encoding inverts decoding: whenever the decoder yields an
/// instruction for a word, encoding that instruction yields the word back.
pub proof fn lemma_decode_reencode(word: u32)
    ensures
        spec_decode(word) matches Ok(instr) ==> spec_encode(instr) == word,
{
    if spec_decode(word) is Ok {
        let k = lemma_dispatch_yields_row(a64_rows(), word);
        let w = word;
        lemma_reassemble_0(w);
        lemma_reassemble_1(w);
        lemma_reassemble_2(w);
        lemma_reassemble_3(w);
        lemma_reassemble_4(w);
        lemma_reassemble_5(w);
        lemma_reassemble_6(w);
        lemma_reassemble_7(w);
        if k == 0 {
            assert(spec_encode(row_instr(EncodingRow::Nop, w)) == w);
        } else if k == 1 {
            assert(spec_encode(row_instr(EncodingRow::Yield, w)) == w);
        } else if k == 2 {
            assert(spec_encode(row_instr(EncodingRow::Wfe, w)) == w);
        } else if k == 3 {
            assert(spec_encode(row_instr(EncodingRow::Wfi, w)) == w);
        } else if k == 4 {
            assert(spec_encode(row_instr(EncodingRow::Sev, w)) == w);
        } else if k == 5 {
            assert(spec_encode(row_instr(EncodingRow::Sevl, w)) == w);
        } else if k == 6 {
            assert(spec_encode(row_instr(EncodingRow::Svc, w)) == w);
        } else if k == 7 {
            assert(spec_encode(row_instr(EncodingRow::Brk, w)) == w);
        } else if k == 8 {
            assert(spec_encode(row_instr(EncodingRow::Hlt, w)) == w);
        } else if k == 9 {
            assert(spec_encode(row_instr(EncodingRow::Mrs, w)) == w);
        } else if k == 10 {
            assert(spec_encode(row_instr(EncodingRow::Br, w)) == w);
        } else if k == 11 {
            assert(spec_encode(row_instr(EncodingRow::Blr, w)) == w);
        } else if k == 12 {
            assert(spec_encode(row_instr(EncodingRow::Ret, w)) == w);
        } else if k == 13 {
            assert(spec_encode(row_instr(EncodingRow::Adr, w)) == w);
        } else if k == 14 {
            assert(spec_encode(row_instr(EncodingRow::Adrp, w)) == w);
        } else if k == 15 {
            assert(spec_encode(row_instr(EncodingRow::MovzVar32, w)) == w);
        } else if k == 16 {
            assert(spec_encode(row_instr(EncodingRow::MovzVar64, w)) == w);
        } else if k == 17 {
            assert(spec_encode(row_instr(EncodingRow::AddImm64, w)) == w);
        } else if k == 18 {
            assert(spec_encode(row_instr(EncodingRow::SubImm64, w)) == w);
        } else if k == 19 {
            assert(spec_encode(row_instr(EncodingRow::SubsImm32, w)) == w);
        } else if k == 20 {
            assert(spec_encode(row_instr(EncodingRow::SubsImm64, w)) == w);
        } else if k == 21 {
            assert(spec_encode(row_instr(EncodingRow::AndsImm64, w)) == w);
        } else if k == 22 {
            assert(spec_encode(row_instr(EncodingRow::Sbfm64, w)) == w);
        } else if k == 23 {
            assert(spec_encode(row_instr(EncodingRow::Ubfm64, w)) == w);
        } else if k == 24 {
            assert(spec_encode(row_instr(EncodingRow::OrrShiftedReg32, w)) == w);
        } else if k == 25 {
            assert(spec_encode(row_instr(EncodingRow::OrrShiftedReg64, w)) == w);
        } else if k == 26 {
            assert(spec_encode(row_instr(EncodingRow::AddShiftedReg64, w)) == w);
        } else if k == 27 {
            assert(spec_encode(row_instr(EncodingRow::SubShiftedReg64, w)) == w);
        } else if k == 28 {
            assert(spec_encode(row_instr(EncodingRow::SubsShiftedReg64, w)) == w);
        } else if k == 29 {
            assert(spec_encode(row_instr(EncodingRow::AddExtReg64, w)) == w);
        } else if k == 30 {
            assert(spec_encode(row_instr(EncodingRow::BImm, w)) == w);
        } else if k == 31 {
            assert(spec_encode(row_instr(EncodingRow::BlImm, w)) == w);
        } else if k == 32 {
            assert(spec_encode(row_instr(EncodingRow::BCond, w)) == w);
        } else if k == 33 {
            assert(spec_encode(row_instr(EncodingRow::Cbz64, w)) == w);
        } else if k == 34 {
            assert(spec_encode(row_instr(EncodingRow::Cbnz64, w)) == w);
        } else if k == 35 {
            assert(spec_encode(row_instr(EncodingRow::Cbnz32, w)) == w);
        } else if k == 36 {
            assert(spec_encode(row_instr(EncodingRow::CcmpImmVar32, w)) == w);
        } else if k == 37 {
            assert(spec_encode(row_instr(EncodingRow::CcmpImmVar64, w)) == w);
        } else if k == 38 {
            assert(spec_encode(row_instr(EncodingRow::Csel32, w)) == w);
        } else if k == 39 {
            assert(spec_encode(row_instr(EncodingRow::LdrLitVar64, w)) == w);
        } else if k == 40 {
            assert(spec_encode(row_instr(EncodingRow::StpVar64, w)) == w);
        } else if k == 41 {
            assert(spec_encode(row_instr(EncodingRow::StpVar64, w)) == w);
        } else if k == 42 {
            assert(spec_encode(row_instr(EncodingRow::StpVar32, w)) == w);
        } else if k == 43 {
            assert(spec_encode(row_instr(EncodingRow::StpVar32, w)) == w);
        } else if k == 44 {
            assert(spec_encode(row_instr(EncodingRow::LdrImm64, w)) == w);
        } else if k == 45 {
            assert(spec_encode(row_instr(EncodingRow::LdrImm64, w)) == w);
        } else if k == 46 {
            assert(spec_encode(row_instr(EncodingRow::LdrImm32, w)) == w);
        } else if k == 47 {
            assert(spec_encode(row_instr(EncodingRow::LdrImm32, w)) == w);
        } else if k == 48 {
            assert(spec_encode(row_instr(EncodingRow::StrImm64, w)) == w);
        } else if k == 49 {
            assert(spec_encode(row_instr(EncodingRow::StrImm64, w)) == w);
        } else if k == 50 {
            assert(spec_encode(row_instr(EncodingRow::StrImm32, w)) == w);
        } else if k == 51 {
            assert(spec_encode(row_instr(EncodingRow::StrImm32, w)) == w);
        } else if k == 52 {
            assert(spec_encode(row_instr(EncodingRow::LdrbImm, w)) == w);
        } else if k == 53 {
            assert(spec_encode(row_instr(EncodingRow::LdrbImm, w)) == w);
        } else if k == 54 {
            assert(spec_encode(row_instr(EncodingRow::LdrhImm, w)) == w);
        } else if k == 55 {
            assert(spec_encode(row_instr(EncodingRow::LdrhImm, w)) == w);
        } else if k == 56 {
            assert(spec_encode(row_instr(EncodingRow::LdrReg64, w)) == w);
        } else if k == 57 {
            assert(spec_encode(row_instr(EncodingRow::LdrReg32, w)) == w);
        }
    }
}

} // verus!
