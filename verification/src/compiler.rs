//! The AArch64-to-IR lowerer: a register-mapping table and one small
//! function per supported opcode, each emitting the IR block for one guest
//! instruction.
//!
//! Guest register index 31 is resolved contextually: as an address base it
//! names the stack register; as a data source it reads as zero; as a plain
//! data destination the write is discarded.  Loads and stores with
//! writeback emit the memory entry first and the base update second, and a
//! load whose base equals its destination suppresses the writeback.

use crate::bits::{lemma_sign_extend_bounds, sign_extend, spec_sign_extend};
use crate::decode::{encode, spec_encode};
use crate::error::TranslateError;
use crate::instruction::{
    AArch64Instr, AddSubtractExtReg, Bitfield, CondCmpImm, ExceptionGen, HwImm16Rd, Imm19Cond,
    Imm19Rt, Imm26, LoadStoreRegPair, LoadStoreRegRegOffset, LogicalImm, PcRelAddressing,
    RmCondRnRd, ShImm12RnRd, ShiftRmImm6RnRd, SizeImm12RnRt, SysRegMov, UncondBranchReg,
};
use crate::ir::{BlockDestination, Ir, IrBlock, Operand, RegId, Type};
use crate::lowering::{
    cmp_eq_op_imm32, cmp_eq_op_imm64, condition_holds, decode_bit_masks, decode_o_for_ld_st_pair_offset,
    decode_operand_for_ld_st_reg_imm, decode_reg_extend, decode_shift, extend_reg, gen_ip_relative,
    replace_bits, replicate_reg64, shift_reg, spec_cmp_eq_op_imm32, spec_cmp_eq_op_imm64,
    spec_condition_holds, spec_decode_bit_masks, spec_decode_o_for_ld_st_pair_offset,
    spec_decode_operand_for_ld_st_reg_imm, spec_decode_reg_extend, spec_decode_shift,
    spec_extend_reg, spec_gen_ip_relative, spec_replace_bits, spec_replicate_reg64, spec_shift_reg,
    spec_width_type,
};
use vstd::prelude::*;

verus! {

/// One entry of a lowered block.
pub type BlockEntry = (Ir, BlockDestination);

/// The lowerer: a fixed mapping from the 31 general-purpose and 31
/// floating-point guest registers, and the stack register, to virtual
/// register identifiers.  The table is read-only after construction.
pub struct AArch64Compiler {
    gpr_registers: [RegId; 31],
    fpr_registers: [RegId; 31],
    stack_reg: RegId,
}

impl AArch64Compiler {
    /// The virtual register mapped to general-purpose guest register `i`.
    pub closed spec fn spec_gpr(self, i: int) -> RegId {
        self.gpr_registers@[i]
    }

    /// The virtual register mapped to floating-point guest register `i`.
    pub closed spec fn spec_fpr(self, i: int) -> RegId {
        self.fpr_registers@[i]
    }

    /// The virtual register mapped to the guest stack register.
    pub closed spec fn spec_stack_reg(self) -> RegId {
        self.stack_reg
    }

    /// The register mapping is injective: each of the 31 general-purpose
    /// registers, the 31 floating-point registers and the stack register
    /// is mapped to a distinct virtual register.
    pub open spec fn wf(self) -> bool {
        &&& forall|i: int, j: int|
            0 <= i < j < 31 ==> self.spec_gpr(i) != self.spec_gpr(j) && self.spec_fpr(i)
                != self.spec_fpr(j)
        &&& forall|i: int, j: int|
            0 <= i < 31 && 0 <= j < 31 ==> (#[trigger] self.spec_gpr(i)) != (#[trigger] self.spec_fpr(
                j,
            ))
        &&& forall|i: int| 0 <= i < 31 ==> (#[trigger] self.spec_gpr(i)) != self.spec_stack_reg()
        &&& forall|i: int| 0 <= i < 31 ==> (#[trigger] self.spec_fpr(i)) != self.spec_stack_reg()
    }

    /// Builds a lowerer around its register mapping, which must map the
    /// sixty-three guest registers to distinct virtual registers.
    pub fn new(gpr_registers: [RegId; 31], fpr_registers: [RegId; 31], stack_reg: RegId) -> (r:
        AArch64Compiler)
        requires
            forall|i: int, j: int|
                0 <= i < j < 31 ==> gpr_registers@[i] != gpr_registers@[j] && fpr_registers@[i]
                    != fpr_registers@[j],
            forall|i: int, j: int|
                0 <= i < 31 && 0 <= j < 31 ==> (#[trigger] gpr_registers@[i]) != (
                #[trigger] fpr_registers@[j]),
            forall|i: int| 0 <= i < 31 ==> (#[trigger] gpr_registers@[i]) != stack_reg,
            forall|i: int| 0 <= i < 31 ==> (#[trigger] fpr_registers@[i]) != stack_reg,
        ensures
            forall|i: int| 0 <= i < 31 ==> r.spec_gpr(i) == gpr_registers@[i],
            forall|i: int| 0 <= i < 31 ==> r.spec_fpr(i) == fpr_registers@[i],
            r.spec_stack_reg() == stack_reg,
            r.wf(),
    {
        let r = AArch64Compiler { gpr_registers, fpr_registers, stack_reg };
        proof {
            assert forall|i: int| 0 <= i < 31 implies (#[trigger] r.spec_gpr(i))
                == gpr_registers@[i] && (#[trigger] r.spec_fpr(i)) == fpr_registers@[i] by {}
        }
        r
    }

    /// Returns the virtual register of general-purpose guest register `index`.
    pub fn gpr(&self, index: u8) -> (r: RegId)
        requires
            index < 31,
        ensures
            r == self.spec_gpr(index as int),
    {
        self.gpr_registers[index as usize]
    }

    /// Returns the virtual register of floating-point guest register `index`.
    pub fn fpr(&self, index: u8) -> (r: RegId)
        requires
            index < 31,
        ensures
            r == self.spec_fpr(index as int),
    {
        self.fpr_registers[index as usize]
    }

    /// The destination for a plain data write to guest register `rd`:
    /// register 31 is the zero register, whose writes are discarded.
    pub open spec fn spec_data_dest(self, rd: u8) -> BlockDestination {
        if rd == 31 {
            BlockDestination::Discard
        } else {
            BlockDestination::Gpr(self.spec_gpr(rd as int))
        }
    }

    /// The operand for a plain data read of guest register `rn` at `ty`:
    /// register 31 is the zero register and reads as zero.
    pub open spec fn spec_data_src(self, rn: u8, ty: Type) -> Operand {
        if rn == 31 {
            Operand::Immediate(ty, 0)
        } else {
            Operand::Register(ty, self.spec_gpr(rn as int))
        }
    }

    /// The base register for an address computation: guest register 31
    /// names the stack register.
    pub open spec fn spec_base_reg(self, rn: u8) -> RegId {
        if rn == 31 {
            self.spec_stack_reg()
        } else {
            self.spec_gpr(rn as int)
        }
    }

    /// Resolves a plain data write destination.
    fn data_dest(&self, rd: u8) -> (r: BlockDestination)
        requires
            rd < 32,
        ensures
            r == self.spec_data_dest(rd),
    {
        if rd == 31 {
            BlockDestination::Discard
        } else {
            BlockDestination::Gpr(self.gpr(rd))
        }
    }

    /// Resolves a plain data read operand.
    fn data_src(&self, rn: u8, ty: Type) -> (r: Operand)
        requires
            rn < 32,
        ensures
            r == self.spec_data_src(rn, ty),
    {
        if rn == 31 {
            Operand::imm(ty, 0)
        } else {
            Operand::reg(ty, self.gpr(rn))
        }
    }

    /// Resolves an address base register.
    fn base_reg(&self, rn: u8) -> (r: RegId)
        requires
            rn < 32,
        ensures
            r == self.spec_base_reg(rn),
    {
        if rn == 31 {
            self.stack_reg
        } else {
            self.gpr(rn)
        }
    }
}

/// The block for MOVZ: the 16-bit immediate shifted into its chunk.
pub open spec fn spec_gen_movz(c: AArch64Compiler, op: HwImm16Rd) -> Seq<BlockEntry> {
    seq![
        (
            Ir::Value(Operand::Immediate(Type::U64, (op.imm16 as u64) << (((op.hw as u32) * 16) as u32))),
            c.spec_data_dest(op.rd),
        ),
    ]
}

fn gen_movz(compiler: &AArch64Compiler, operand: HwImm16Rd) -> (r: IrBlock)
    requires
        operand.wf(),
    ensures
        r@ =~= spec_gen_movz(*compiler, operand),
        r.instruction_size() == 4,
{
    let mut block = IrBlock::new(4);
    let pos: u32 = (operand.hw as u32) * 16;
    let ir = Ir::Value(Operand::imm(Type::U64, (operand.imm16 as u64) << pos));
    let ds = compiler.data_dest(operand.rd);
    block.append(ir, ds);
    block
}

/// The block for ADR: the page-less PC-relative address.
pub open spec fn spec_gen_adr(c: AArch64Compiler, op: PcRelAddressing) -> Seq<BlockEntry> {
    let imm = spec_sign_extend(((op.immhi as i64) << 2u32) | (op.immlo as i64), 21);
    seq![(spec_gen_ip_relative(imm), c.spec_data_dest(op.rd))]
}

fn gen_adr(compiler: &AArch64Compiler, operand: PcRelAddressing) -> (r: IrBlock)
    requires
        operand.wf(),
    ensures
        r@ =~= spec_gen_adr(*compiler, operand),
        r.instruction_size() == 4,
{
    let mut block = IrBlock::new(4);
    let imm = sign_extend(((operand.immhi as i64) << 2u32) | (operand.immlo as i64), 21);
    let ir = gen_ip_relative(imm);
    let ds = compiler.data_dest(operand.rd);
    block.append(ir, ds);
    block
}

/// The block for ADRP: the PC page base plus the shifted immediate.
pub open spec fn spec_gen_adrp(c: AArch64Compiler, op: PcRelAddressing) -> Seq<BlockEntry> {
    let imm = spec_sign_extend((((op.immhi as i64) << 2u32) | (op.immlo as i64)) << 12u32, 33);
    seq![
        (
            Ir::Add(
                Type::U64,
                Operand::Ir(
                    Box::new(
                        Ir::And(
                            Type::U64,
                            Operand::Ip,
                            Operand::Immediate(Type::U64, 0xFFFF_FFFF_FFFF_F000),
                        ),
                    ),
                ),
                Operand::Immediate(Type::I64, imm as u64),
            ),
            c.spec_data_dest(op.rd),
        ),
    ]
}

fn gen_adrp(compiler: &AArch64Compiler, operand: PcRelAddressing) -> (r: IrBlock)
    requires
        operand.wf(),
    ensures
        r@ =~= spec_gen_adrp(*compiler, operand),
        r.instruction_size() == 4,
{
    let mut block = IrBlock::new(4);
    let imm = sign_extend((((operand.immhi as i64) << 2u32) | (operand.immlo as i64)) << 12u32, 33);
    let ir = Ir::Add(
        Type::U64,
        Operand::ir(
            Ir::And(Type::U64, Operand::Ip, Operand::Immediate(Type::U64, 0xFFFF_FFFF_FFFF_F000)),
        ),
        Operand::Immediate(Type::I64, imm as u64),
    );
    let ds = compiler.data_dest(operand.rd);
    block.append(ir, ds);
    block
}

/// The block for ORR (shifted register), including the MOV alias when the
/// source is the zero register and no shift applies.
pub open spec fn spec_gen_orr_shifted_reg(
    c: AArch64Compiler,
    op: ShiftRmImm6RnRd,
    ty: Type,
) -> Seq<BlockEntry> {
    if op.imm6 == 0 && op.shift == 0 && op.rn == 31 {
        seq![(Ir::Value(c.spec_data_src(op.rm, ty)), c.spec_data_dest(op.rd))]
    } else {
        let rm_op = if op.rm == 31 {
            Operand::Immediate(ty, 0)
        } else {
            Operand::Ir(
                Box::new(
                    spec_shift_reg(
                        c.spec_gpr(op.rm as int),
                        spec_decode_shift(op.shift),
                        op.imm6 as u64,
                        ty,
                    ),
                ),
            )
        };
        seq![
            (Ir::Or(ty, c.spec_data_src(op.rn, ty), rm_op), c.spec_data_dest(op.rd)),
        ]
    }
}

fn gen_orr_shifted_reg(compiler: &AArch64Compiler, operand: ShiftRmImm6RnRd, ty: Type) -> (r:
    IrBlock)
    requires
        operand.wf(),
    ensures
        r@ =~= spec_gen_orr_shifted_reg(*compiler, operand, ty),
        r.instruction_size() == 4,
{
    let mut block = IrBlock::new(4);
    if operand.imm6 == 0 && operand.shift == 0 && operand.rn == 31 {
        let ir = Ir::Value(compiler.data_src(operand.rm, ty));
        let ds = compiler.data_dest(operand.rd);
        block.append(ir, ds);
    } else {
        let rm_op = if operand.rm == 31 {
            Operand::imm(ty, 0)
        } else {
            Operand::ir(
                shift_reg(
                    compiler.gpr(operand.rm),
                    decode_shift(operand.shift),
                    operand.imm6 as u64,
                    ty,
                ),
            )
        };
        let ir = Ir::Or(ty, compiler.data_src(operand.rn, ty), rm_op);
        let ds = compiler.data_dest(operand.rd);
        block.append(ir, ds);
    }
    block
}

/// The block for LDR (immediate): a load at base plus pre-offset, then the
/// base update when writeback applies.  Writeback is suppressed when the
/// base register equals the destination and is not the stack register.
pub open spec fn spec_gen_ldr_imm(c: AArch64Compiler, op: SizeImm12RnRt, ty: Type) -> Seq<
    BlockEntry,
> {
    let dec = spec_decode_operand_for_ld_st_reg_imm(op);
    let post_index = dec.1;
    let offset = dec.3;
    let wback = dec.0 && !(op.rn == op.rt && op.rn != 31);
    let pre_offs = if post_index {
        0i64
    } else {
        offset
    };
    let src = c.spec_base_reg(op.rn);
    let load = (
        Ir::Load(
            ty,
            Operand::Ir(
                Box::new(
                    Ir::Add(
                        Type::U64,
                        Operand::Register(Type::U64, src),
                        Operand::Immediate(Type::U64, pre_offs as u64),
                    ),
                ),
            ),
        ),
        c.spec_data_dest(op.rt),
    );
    if wback {
        seq![
            load,
            (
                Ir::Add(
                    Type::U64,
                    Operand::Register(Type::U64, src),
                    Operand::Immediate(Type::I64, offset as u64),
                ),
                BlockDestination::Gpr(src),
            ),
        ]
    } else {
        seq![load]
    }
}

fn gen_ldr_imm(compiler: &AArch64Compiler, operand: SizeImm12RnRt, ty: Type) -> (r: IrBlock)
    requires
        operand.wf(),
    ensures
        r@ =~= spec_gen_ldr_imm(*compiler, operand, ty),
        r.instruction_size() == 4,
{
    let mut block = IrBlock::new(4);
    let (mut wback, post_index, _scale, offset) = decode_operand_for_ld_st_reg_imm(operand);
    let pre_offs = if post_index {
        0i64
    } else {
        offset
    };
    if wback && operand.rn == operand.rt && operand.rn != 31 {
        wback = false;
    }
    let src = compiler.base_reg(operand.rn);
    let ir = Ir::Load(
        ty,
        Operand::ir(
            Ir::Add(
                Type::U64,
                Operand::reg(Type::U64, src),
                Operand::imm(Type::U64, pre_offs as u64),
            ),
        ),
    );
    let ds = compiler.data_dest(operand.rt);
    block.append(ir, ds);
    if wback {
        let ir = Ir::Add(
            Type::U64,
            Operand::reg(Type::U64, src),
            Operand::Immediate(Type::I64, offset as u64),
        );
        let ds = BlockDestination::Gpr(src);
        block.append(ir, ds);
    }
    block
}

/// The block for STR (immediate): the stored value routed to memory at
/// base plus pre-offset, then the base update when writeback applies.
/// Writeback is suppressed when the base register equals the stored
/// register and is not the stack register.
pub open spec fn spec_gen_str_imm(c: AArch64Compiler, op: SizeImm12RnRt, ty: Type) -> Seq<
    BlockEntry,
> {
    let dec = spec_decode_operand_for_ld_st_reg_imm(op);
    let post_index = dec.1;
    let offset = dec.3;
    let wback = dec.0 && !(op.rn == op.rt && op.rn != 31);
    let pre_offs = if post_index {
        0i64
    } else {
        offset
    };
    let rn = c.spec_base_reg(op.rn);
    let rt = c.spec_data_src(op.rt, Type::U64);
    let store = (Ir::Value(rt), BlockDestination::MemoryRel(rn, pre_offs));
    if wback {
        let off_ty = if ty == Type::U64 {
            Type::I64
        } else {
            Type::I32
        };
        seq![
            store,
            (
                Ir::Add(ty, Operand::Register(ty, rn), Operand::Immediate(off_ty, offset as u64)),
                BlockDestination::Gpr(rn),
            ),
        ]
    } else {
        seq![store]
    }
}

fn gen_str_imm(compiler: &AArch64Compiler, operand: SizeImm12RnRt, ty: Type) -> (r: IrBlock)
    requires
        operand.wf(),
    ensures
        r@ =~= spec_gen_str_imm(*compiler, operand, ty),
        r.instruction_size() == 4,
{
    let mut block = IrBlock::new(4);
    let (mut wback, post_index, _scale, offset) = decode_operand_for_ld_st_reg_imm(operand);
    let pre_offs = if post_index {
        0i64
    } else {
        offset
    };
    if wback && operand.rn == operand.rt && operand.rn != 31 {
        wback = false;
    }
    let rn = compiler.base_reg(operand.rn);
    let rt = compiler.data_src(operand.rt, Type::U64);
    let ir = Ir::Value(rt);
    let ds = BlockDestination::MemoryRel(rn, pre_offs);
    block.append(ir, ds);
    if wback {
        let off_ty = if ty == Type::U64 {
            Type::I64
        } else {
            Type::I32
        };
        let ir = Ir::Add(ty, Operand::reg(ty, rn), Operand::imm(off_ty, offset as u64));
        let ds = BlockDestination::Gpr(rn);
        block.append(ir, ds);
    }
    block
}

/// The block for LDR (literal, 64-bit): a load at a PC-relative address.
pub open spec fn spec_gen_ldr_lit_var64(c: AArch64Compiler, op: Imm19Rt) -> Seq<BlockEntry> {
    let offset = spec_sign_extend((op.imm19 << 2u32) as i64, 21);
    seq![
        (
            Ir::Load(Type::U64, Operand::Ir(Box::new(spec_gen_ip_relative(offset)))),
            c.spec_data_dest(op.rt),
        ),
    ]
}

fn gen_ldr_lit_var64(compiler: &AArch64Compiler, operand: Imm19Rt) -> (r: IrBlock)
    requires
        operand.wf(),
    ensures
        r@ =~= spec_gen_ldr_lit_var64(*compiler, operand),
        r.instruction_size() == 4,
{
    let mut block = IrBlock::new(4);
    let offset = sign_extend((operand.imm19 << 2u32) as i64, 21);
    let ir = Ir::Load(Type::U64, Operand::ir(gen_ip_relative(offset)));
    let ds = compiler.data_dest(operand.rt);
    block.append(ir, ds);
    block
}

/// The element size of a store-pair entry, in bytes.
pub open spec fn spec_pair_elem_size(ty: Type) -> i64 {
    if ty == Type::U32 {
        4
    } else {
        8
    }
}

/// The block for STP: two stores at adjacent offsets from the shared base,
/// the second one element size above the first, then the base update when
/// writeback applies.  The store pair keeps its writeback even when the
/// base register equals a stored register: the suppression rule concerns
/// the single-register load/store forms, and the stored registers here are
/// only read, so the base update conflicts with nothing the block wrote.
pub open spec fn spec_gen_stp_var(c: AArch64Compiler, op: LoadStoreRegPair, ty: Type) -> Seq<
    BlockEntry,
> {
    let dec = spec_decode_o_for_ld_st_pair_offset(op.o);
    let wback = dec.0;
    let post_index = dec.1;
    let offset = (spec_sign_extend(op.imm7 as i64, 7) * 8) as i64;
    let dst = c.spec_base_reg(op.rn);
    let offset_temp = if !post_index {
        offset
    } else {
        0i64
    };
    let e1 = (
        Ir::Value(c.spec_data_src(op.rt, ty)),
        BlockDestination::MemoryRel(dst, offset_temp),
    );
    let e2 = (
        Ir::Value(c.spec_data_src(op.rt2, ty)),
        BlockDestination::MemoryRel(dst, (offset_temp + spec_pair_elem_size(ty)) as i64),
    );
    if wback {
        seq![
            e1,
            e2,
            (
                Ir::Add(
                    Type::U64,
                    Operand::Register(Type::U64, dst),
                    Operand::Immediate(Type::I64, offset as u64),
                ),
                BlockDestination::Gpr(dst),
            ),
        ]
    } else {
        seq![e1, e2]
    }
}

fn gen_stp_var(compiler: &AArch64Compiler, operand: LoadStoreRegPair, ty: Type) -> (r: IrBlock)
    requires
        operand.wf(),
    ensures
        r@ =~= spec_gen_stp_var(*compiler, operand, ty),
        r.instruction_size() == 4,
{
    let mut block = IrBlock::new(4);
    let (wback, post_index) = decode_o_for_ld_st_pair_offset(operand.o);
    proof {
        lemma_sign_extend_bounds(operand.imm7 as i64, 7);
    }
    let offset = sign_extend(operand.imm7 as i64, 7) * 8;
    let dst = compiler.base_reg(operand.rn);
    let offset_temp = if !post_index {
        offset
    } else {
        0i64
    };
    let elem: i64 = if ty == Type::U32 {
        4
    } else {
        8
    };
    let ir = Ir::Value(compiler.data_src(operand.rt, ty));
    let ds = BlockDestination::MemoryRel(dst, offset_temp);
    block.append(ir, ds);
    let ir = Ir::Value(compiler.data_src(operand.rt2, ty));
    let ds = BlockDestination::MemoryRel(dst, offset_temp + elem);
    block.append(ir, ds);
    if wback {
        let ir = Ir::Add(
            Type::U64,
            Operand::Register(Type::U64, dst),
            Operand::Immediate(Type::I64, offset as u64),
        );
        let ds = BlockDestination::Gpr(dst);
        block.append(ir, ds);
    }
    block
}

/// The block for LDRB (immediate): a byte load zero-extended to 32 bits,
/// then the base update when writeback applies (suppressed when the base
/// equals the destination and is not the stack register).
pub open spec fn spec_gen_ldrb_imm(c: AArch64Compiler, op: SizeImm12RnRt) -> Seq<BlockEntry> {
    let dec = spec_decode_operand_for_ld_st_reg_imm(op);
    let post_index = dec.1;
    let offset = dec.3;
    let wback = dec.0 && !(op.rn == op.rt && op.rn != 31);
    let pre_offs = if post_index {
        0i64
    } else {
        offset
    };
    let src = c.spec_base_reg(op.rn);
    let load = (
        Ir::ZextCast(
            Type::U32,
            Operand::Ir(
                Box::new(
                    Ir::Load(
                        Type::U8,
                        Operand::Ir(
                            Box::new(
                                Ir::Add(
                                    Type::U64,
                                    Operand::Register(Type::U64, src),
                                    Operand::Immediate(Type::U64, pre_offs as u64),
                                ),
                            ),
                        ),
                    ),
                ),
            ),
        ),
        c.spec_data_dest(op.rt),
    );
    if wback {
        seq![
            load,
            (
                Ir::Add(
                    Type::U64,
                    Operand::Register(Type::U64, src),
                    Operand::Immediate(Type::I64, offset as u64),
                ),
                BlockDestination::Gpr(src),
            ),
        ]
    } else {
        seq![load]
    }
}

fn gen_ldrb_imm(compiler: &AArch64Compiler, operand: SizeImm12RnRt) -> (r: IrBlock)
    requires
        operand.wf(),
    ensures
        r@ =~= spec_gen_ldrb_imm(*compiler, operand),
        r.instruction_size() == 4,
{
    let mut block = IrBlock::new(4);
    let (mut wback, post_index, _scale, offset) = decode_operand_for_ld_st_reg_imm(operand);
    let pre_offs = if post_index {
        0i64
    } else {
        offset
    };
    if wback && operand.rn == operand.rt && operand.rn != 31 {
        wback = false;
    }
    let src = compiler.base_reg(operand.rn);
    let ir = Ir::Load(
        Type::U8,
        Operand::ir(
            Ir::Add(
                Type::U64,
                Operand::reg(Type::U64, src),
                Operand::imm(Type::U64, pre_offs as u64),
            ),
        ),
    );
    let ir = Ir::ZextCast(Type::U32, Operand::ir(ir));
    let ds = compiler.data_dest(operand.rt);
    block.append(ir, ds);
    if wback {
        let ir = Ir::Add(
            Type::U64,
            Operand::reg(Type::U64, src),
            Operand::imm(Type::I64, offset as u64),
        );
        let ds = BlockDestination::Gpr(src);
        block.append(ir, ds);
    }
    block
}

/// The block for LDRH (immediate): a halfword load zero-extended to 32
/// bits, then the base update when writeback applies (suppressed when the
/// base equals the destination and is not the stack register).
pub open spec fn spec_gen_ldrh_imm(c: AArch64Compiler, op: SizeImm12RnRt) -> Seq<BlockEntry> {
    let dec = spec_decode_operand_for_ld_st_reg_imm(op);
    let post_index = dec.1;
    let offset = dec.3;
    let wback = dec.0 && !(op.rn == op.rt && op.rn != 31);
    let offset_temp = if !post_index {
        offset
    } else {
        0i64
    };
    let src = c.spec_base_reg(op.rn);
    let load = (
        Ir::ZextCast(
            Type::U32,
            Operand::Ir(
                Box::new(
                    Ir::Load(
                        Type::U16,
                        Operand::Ir(
                            Box::new(
                                Ir::Add(
                                    Type::U64,
                                    Operand::Register(Type::U64, src),
                                    Operand::Immediate(Type::I64, offset_temp as u64),
                                ),
                            ),
                        ),
                    ),
                ),
            ),
        ),
        c.spec_data_dest(op.rt),
    );
    if wback {
        seq![
            load,
            (
                Ir::Add(
                    Type::U64,
                    Operand::Register(Type::U64, src),
                    Operand::Immediate(Type::I64, offset as u64),
                ),
                BlockDestination::Gpr(src),
            ),
        ]
    } else {
        seq![load]
    }
}

fn gen_ldrh_imm(compiler: &AArch64Compiler, operand: SizeImm12RnRt) -> (r: IrBlock)
    requires
        operand.wf(),
    ensures
        r@ =~= spec_gen_ldrh_imm(*compiler, operand),
        r.instruction_size() == 4,
{
    let mut block = IrBlock::new(4);
    let (mut wback, post_index, _scale, offset) = decode_operand_for_ld_st_reg_imm(operand);
    let offset_temp = if !post_index {
        offset
    } else {
        0i64
    };
    if wback && operand.rn == operand.rt && operand.rn != 31 {
        wback = false;
    }
    let src = compiler.base_reg(operand.rn);
    let ir = Ir::Load(
        Type::U16,
        Operand::ir(
            Ir::Add(
                Type::U64,
                Operand::Register(Type::U64, src),
                Operand::Immediate(Type::I64, offset_temp as u64),
            ),
        ),
    );
    let ir = Ir::ZextCast(Type::U32, Operand::ir(ir));
    let ds = compiler.data_dest(operand.rt);
    block.append(ir, ds);
    if wback {
        let ir = Ir::Add(
            Type::U64,
            Operand::reg(Type::U64, src),
            Operand::imm(Type::I64, offset as u64),
        );
        let ds = BlockDestination::Gpr(src);
        block.append(ir, ds);
    }
    block
}

/// The block for LDR (register offset): a load at base plus the extended,
/// scaled offset register, zero-extended back to the access type.
pub open spec fn spec_gen_ldr_reg(c: AArch64Compiler, op: LoadStoreRegRegOffset, ty: Type) -> Seq<
    BlockEntry,
> {
    let ext = spec_decode_reg_extend(op.option);
    let shift = if op.s == 1 {
        op.size
    } else {
        0u8
    };
    let inner = if op.rm == 31 {
        Ir::Value(Operand::Immediate(spec_width_type(ty.spec_size() as u8), 0))
    } else {
        spec_extend_reg(c.spec_gpr(op.rm as int), ext, shift, ty.spec_size() as u8)
    };
    let offset = Ir::SextCast(Type::I64, Operand::Ir(Box::new(inner)));
    let src = c.spec_base_reg(op.rn);
    seq![
        (
            Ir::ZextCast(
                ty,
                Operand::Ir(
                    Box::new(
                        Ir::Load(
                            ty,
                            Operand::Ir(
                                Box::new(
                                    Ir::Add(
                                        Type::U64,
                                        Operand::Register(Type::U64, src),
                                        Operand::Ir(Box::new(offset)),
                                    ),
                                ),
                            ),
                        ),
                    ),
                ),
            ),
            c.spec_data_dest(op.rt),
        ),
    ]
}

fn gen_ldr_reg(compiler: &AArch64Compiler, operand: LoadStoreRegRegOffset, ty: Type) -> (r: IrBlock)
    requires
        operand.wf(),
    ensures
        r@ =~= spec_gen_ldr_reg(*compiler, operand, ty),
        r.instruction_size() == 4,
{
    let mut block = IrBlock::new(4);
    let ext = decode_reg_extend(operand.option);
    let shift = if operand.s == 1 {
        operand.size
    } else {
        0u8
    };
    let nbytes = ty.size() as u8;
    let inner = if operand.rm == 31 {
        let zty = if nbytes == 8 {
            Type::U64
        } else {
            Type::U32
        };
        Ir::Value(Operand::imm(zty, 0))
    } else {
        extend_reg(compiler.gpr(operand.rm), ext, shift, nbytes)
    };
    let offset = Ir::SextCast(Type::I64, Operand::ir(inner));
    let src = compiler.base_reg(operand.rn);
    let ir = Ir::Load(
        ty,
        Operand::ir(
            Ir::Add(Type::U64, Operand::Register(Type::U64, src), Operand::ir(offset)),
        ),
    );
    let ir = Ir::ZextCast(ty, Operand::ir(ir));
    let ds = compiler.data_dest(operand.rt);
    block.append(ir, ds);
    block
}

/// The 12-bit arithmetic immediate, optionally shifted left by twelve.
pub open spec fn spec_arith_imm(op: ShImm12RnRd) -> u64 {
    if op.sh == 1 {
        (op.imm12 as u64) << 12u32
    } else {
        op.imm12 as u64
    }
}

/// The destination of an add/subtract (immediate): guest register 31
/// names the stack register, as these encodings have no zero-register
/// destination alias.
pub open spec fn spec_sp_dest(c: AArch64Compiler, rd: u8) -> BlockDestination {
    BlockDestination::Gpr(c.spec_base_reg(rd))
}

/// The block for ADD (immediate, 64-bit).
pub open spec fn spec_gen_add_imm64(c: AArch64Compiler, op: ShImm12RnRd) -> Seq<BlockEntry> {
    seq![
        (
            Ir::Add(
                Type::U64,
                Operand::Register(Type::U64, c.spec_base_reg(op.rn)),
                Operand::Immediate(Type::U64, spec_arith_imm(op)),
            ),
            spec_sp_dest(c, op.rd),
        ),
    ]
}

fn gen_add_imm64(compiler: &AArch64Compiler, operand: ShImm12RnRd) -> (r: IrBlock)
    requires
        operand.wf(),
    ensures
        r@ =~= spec_gen_add_imm64(*compiler, operand),
        r.instruction_size() == 4,
{
    let mut block = IrBlock::new(4);
    let rd = compiler.base_reg(operand.rd);
    let rn = compiler.base_reg(operand.rn);
    let imm: u64 = if operand.sh == 1 {
        (operand.imm12 as u64) << 12u32
    } else {
        operand.imm12 as u64
    };
    let ir = Ir::Add(Type::U64, Operand::reg(Type::U64, rn), Operand::imm(Type::U64, imm));
    let ds = BlockDestination::Gpr(rd);
    block.append(ir, ds);
    block
}

/// The block for SUB (immediate, 64-bit).
pub open spec fn spec_gen_sub_imm64(c: AArch64Compiler, op: ShImm12RnRd) -> Seq<BlockEntry> {
    seq![
        (
            Ir::Sub(
                Type::U64,
                Operand::Register(Type::U64, c.spec_base_reg(op.rn)),
                Operand::Immediate(Type::U64, spec_arith_imm(op)),
            ),
            spec_sp_dest(c, op.rd),
        ),
    ]
}

fn gen_sub_imm64(compiler: &AArch64Compiler, operand: ShImm12RnRd) -> (r: IrBlock)
    requires
        operand.wf(),
    ensures
        r@ =~= spec_gen_sub_imm64(*compiler, operand),
        r.instruction_size() == 4,
{
    let mut block = IrBlock::new(4);
    let rd = compiler.base_reg(operand.rd);
    let rn = compiler.base_reg(operand.rn);
    let imm: u64 = if operand.sh == 1 {
        (operand.imm12 as u64) << 12u32
    } else {
        operand.imm12 as u64
    };
    let ir = Ir::Sub(Type::U64, Operand::reg(Type::U64, rn), Operand::imm(Type::U64, imm));
    let ds = BlockDestination::Gpr(rd);
    block.append(ir, ds);
    block
}

/// The shifted second operand of a shifted-register form: the zero
/// register shifted is simply zero.
pub open spec fn spec_shifted_rm(c: AArch64Compiler, op: ShiftRmImm6RnRd, ty: Type) -> Operand {
    if op.rm == 31 {
        Operand::Immediate(ty, 0)
    } else {
        Operand::Ir(
            Box::new(
                spec_shift_reg(
                    c.spec_gpr(op.rm as int),
                    spec_decode_shift(op.shift),
                    op.imm6 as u64,
                    ty,
                ),
            ),
        )
    }
}

fn shifted_rm(compiler: &AArch64Compiler, operand: ShiftRmImm6RnRd, ty: Type) -> (r: Operand)
    requires
        operand.wf(),
    ensures
        r == spec_shifted_rm(*compiler, operand, ty),
{
    if operand.rm == 31 {
        Operand::imm(ty, 0)
    } else {
        Operand::ir(
            shift_reg(
                compiler.gpr(operand.rm),
                decode_shift(operand.shift),
                operand.imm6 as u64,
                ty,
            ),
        )
    }
}

/// The block for ADD (shifted register, 64-bit).
pub open spec fn spec_gen_add_shifted_reg64(c: AArch64Compiler, op: ShiftRmImm6RnRd) -> Seq<
    BlockEntry,
> {
    seq![
        (
            Ir::Add(
                Type::U64,
                c.spec_data_src(op.rn, Type::U64),
                spec_shifted_rm(c, op, Type::U64),
            ),
            c.spec_data_dest(op.rd),
        ),
    ]
}

fn gen_add_shifted_reg64(compiler: &AArch64Compiler, operand: ShiftRmImm6RnRd) -> (r: IrBlock)
    requires
        operand.wf(),
    ensures
        r@ =~= spec_gen_add_shifted_reg64(*compiler, operand),
        r.instruction_size() == 4,
{
    let mut block = IrBlock::new(4);
    let sh = shifted_rm(compiler, operand, Type::U64);
    let ir = Ir::Add(Type::U64, compiler.data_src(operand.rn, Type::U64), sh);
    let ds = compiler.data_dest(operand.rd);
    block.append(ir, ds);
    block
}

/// The block for SUB (shifted register, 64-bit).
pub open spec fn spec_gen_sub_shifted_reg64(c: AArch64Compiler, op: ShiftRmImm6RnRd) -> Seq<
    BlockEntry,
> {
    seq![
        (
            Ir::Sub(
                Type::U64,
                c.spec_data_src(op.rn, Type::U64),
                spec_shifted_rm(c, op, Type::U64),
            ),
            c.spec_data_dest(op.rd),
        ),
    ]
}

fn gen_sub_shifted_reg_64(compiler: &AArch64Compiler, operand: ShiftRmImm6RnRd) -> (r: IrBlock)
    requires
        operand.wf(),
    ensures
        r@ =~= spec_gen_sub_shifted_reg64(*compiler, operand),
        r.instruction_size() == 4,
{
    let mut block = IrBlock::new(4);
    let sh = shifted_rm(compiler, operand, Type::U64);
    let ir = Ir::Sub(Type::U64, compiler.data_src(operand.rn, Type::U64), sh);
    let ds = compiler.data_dest(operand.rd);
    block.append(ir, ds);
    block
}

/// The block for SUBS (shifted register, 64-bit): a flag-setting subtract
/// whose result is discarded when the destination is the zero register,
/// which is the CMP alias.
pub open spec fn spec_gen_subs_shifted_reg64(c: AArch64Compiler, op: ShiftRmImm6RnRd) -> Seq<
    BlockEntry,
> {
    seq![
        (
            Ir::Subc(
                Type::U64,
                c.spec_data_src(op.rn, Type::U64),
                spec_shifted_rm(c, op, Type::U64),
            ),
            c.spec_data_dest(op.rd),
        ),
    ]
}

fn gen_subs_shifted_reg_64(compiler: &AArch64Compiler, operand: ShiftRmImm6RnRd) -> (r: IrBlock)
    requires
        operand.wf(),
    ensures
        r@ =~= spec_gen_subs_shifted_reg64(*compiler, operand),
        r.instruction_size() == 4,
{
    let mut block = IrBlock::new(4);
    let sh = shifted_rm(compiler, operand, Type::U64);
    let ir = Ir::Subc(Type::U64, compiler.data_src(operand.rn, Type::U64), sh);
    let ds = compiler.data_dest(operand.rd);
    block.append(ir, ds);
    block
}

/// The block for SUBS (immediate): a flag-setting subtract from the base
/// form of `rn`; a zero-register destination is the CMP alias and
/// discards the difference.
pub open spec fn spec_gen_subs_imm(c: AArch64Compiler, op: ShImm12RnRd, size: Type) -> Seq<
    BlockEntry,
> {
    seq![
        (
            Ir::Subc(
                size,
                Operand::Register(size, c.spec_base_reg(op.rn)),
                Operand::Immediate(size, spec_arith_imm(op)),
            ),
            c.spec_data_dest(op.rd),
        ),
    ]
}

fn gen_subs_imm(compiler: &AArch64Compiler, operand: ShImm12RnRd, size: Type) -> (r: IrBlock)
    requires
        operand.wf(),
    ensures
        r@ =~= spec_gen_subs_imm(*compiler, operand, size),
        r.instruction_size() == 4,
{
    let mut block = IrBlock::new(4);
    let imm: u64 = if operand.sh == 1 {
        (operand.imm12 as u64) << 12u32
    } else {
        operand.imm12 as u64
    };
    let rn = compiler.base_reg(operand.rn);
    let ds = compiler.data_dest(operand.rd);
    let ir = Ir::Subc(size, Operand::reg(size, rn), Operand::imm(size, imm));
    block.append(ir, ds);
    block
}

/// The block for ANDS (immediate, 64-bit), or `UndefinedEncoding` for a
/// reserved bitmask immediate: the masked value routed to the
/// destination, then a flag-setting add of zero over the same value whose
/// result is discarded.
pub open spec fn spec_gen_ands_imm64(c: AArch64Compiler, op: LogicalImm) -> Result<
    Seq<BlockEntry>,
    TranslateError,
> {
    match spec_decode_bit_masks(op.n, op.imms, op.immr, true, 64) {
        Some((imm, _tmask)) => {
            let and_ir = Ir::And(
                Type::U64,
                c.spec_data_src(op.rn, Type::U64),
                Operand::Immediate(Type::U64, imm),
            );
            Ok(
                seq![
                    (and_ir, c.spec_data_dest(op.rd)),
                    (
                        Ir::Addc(
                            Type::U64,
                            Operand::Ir(
                                Box::new(
                                    Ir::And(
                                        Type::U64,
                                        c.spec_data_src(op.rn, Type::U64),
                                        Operand::Immediate(Type::U64, imm),
                                    ),
                                ),
                            ),
                            Operand::Immediate(Type::U64, 0),
                        ),
                        BlockDestination::Discard,
                    ),
                ],
            )
        },
        Option::None => Err(TranslateError::UndefinedEncoding(spec_encode(AArch64Instr::AndsImm64(op)))),
    }
}

fn gen_ands_imm64(compiler: &AArch64Compiler, operand: LogicalImm) -> (r: Result<
    IrBlock,
    TranslateError,
>)
    requires
        operand.wf(),
    ensures
        match spec_gen_ands_imm64(*compiler, operand) {
            Ok(entries) => r matches Ok(b) && b@ =~= entries && b.spec_instruction_size() == 4,
            Err(e) => r matches Err(e2) && e2 == e,
        },
{
    let mut block = IrBlock::new(4);
    let masks = decode_bit_masks(operand.n, operand.imms, operand.immr, true, 64);
    let imm = match masks {
        Some((imm, _)) => imm,
        Option::None => {
            return Err(
                TranslateError::UndefinedEncoding(encode(&AArch64Instr::AndsImm64(operand))),
            );
        },
    };
    let rn = compiler.data_src(operand.rn, Type::U64);
    let ir = Ir::And(Type::U64, rn, Operand::imm(Type::U64, imm));
    let ds = compiler.data_dest(operand.rd);
    block.append(ir, ds);
    let rn2 = compiler.data_src(operand.rn, Type::U64);
    let ir2 = Ir::And(Type::U64, rn2, Operand::imm(Type::U64, imm));
    let ir = Ir::Addc(Type::U64, Operand::ir(ir2), Operand::imm(Type::U64, 0));
    let ds = BlockDestination::Discard;
    block.append(ir, ds);
    Ok(block)
}

/// The block for UBFM (64-bit), or `UndefinedEncoding` for a reserved
/// bitmask: the source rotated right by `immr`, masked by `wmask`, then
/// masked by `tmask`.
pub open spec fn spec_gen_ubfm(c: AArch64Compiler, op: Bitfield, ty: Type) -> Result<
    Seq<BlockEntry>,
    TranslateError,
> {
    match spec_decode_bit_masks(op.n, op.imms, op.immr, false, (ty.spec_size() * 8) as u8) {
        Some((wmask, tmask)) => {
            let src = c.spec_data_src(op.rn, ty);
            let r_op = Operand::Immediate(Type::U8, op.immr as u64);
            let bot = Ir::And(
                ty,
                Operand::Ir(Box::new(Ir::Rotr(ty, src, r_op))),
                Operand::Immediate(ty, wmask),
            );
            Ok(
                seq![
                    (
                        Ir::And(ty, Operand::Ir(Box::new(bot)), Operand::Immediate(ty, tmask)),
                        c.spec_data_dest(op.rd),
                    ),
                ],
            )
        },
        Option::None => Err(TranslateError::UndefinedEncoding(spec_encode(AArch64Instr::Ubfm64(op)))),
    }
}

fn gen_ubfm(compiler: &AArch64Compiler, operand: Bitfield, ty: Type) -> (r: Result<
    IrBlock,
    TranslateError,
>)
    requires
        operand.wf(),
        ty == Type::U64 || ty == Type::U32,
    ensures
        match spec_gen_ubfm(*compiler, operand, ty) {
            Ok(entries) => r matches Ok(b) && b@ =~= entries && b.spec_instruction_size() == 4,
            Err(e) => r matches Err(e2) && e2 == e,
        },
{
    let mut block = IrBlock::new(4);
    let datasize = (ty.size() * 8) as u8;
    let masks = decode_bit_masks(operand.n, operand.imms, operand.immr, false, datasize);
    let (wmask, tmask) = match masks {
        Some(m) => m,
        Option::None => {
            return Err(TranslateError::UndefinedEncoding(encode(&AArch64Instr::Ubfm64(operand))));
        },
    };
    let src = compiler.data_src(operand.rn, ty);
    let r_op = Operand::Immediate(Type::U8, operand.immr as u64);
    let bot = Ir::And(ty, Operand::ir(Ir::Rotr(ty, src, r_op)), Operand::Immediate(ty, wmask));
    let ir = Ir::And(ty, Operand::ir(bot), Operand::Immediate(ty, tmask));
    let ds = compiler.data_dest(operand.rd);
    block.append(ir, ds);
    Ok(block)
}

/// The block for SBFM (64-bit), or `UndefinedEncoding` for a reserved
/// bitmask: the rotated-and-masked field combined with the top bits
/// replicated from the sign bit of the field.
pub open spec fn spec_gen_sbfm(c: AArch64Compiler, op: Bitfield, ty: Type) -> Result<
    Seq<BlockEntry>,
    TranslateError,
> {
    match spec_decode_bit_masks(op.n, op.imms, op.immr, false, (ty.spec_size() * 8) as u8) {
        Some((wmask, tmask)) => {
            let src = c.spec_data_src(op.rn, ty);
            let r_op = Operand::Immediate(Type::U8, op.immr as u64);
            let bot = Ir::And(
                ty,
                Operand::Ir(Box::new(Ir::Rotr(ty, src, r_op))),
                Operand::Immediate(ty, wmask),
            );
            let top = if op.rn == 31 {
                Ir::Value(Operand::Immediate(ty, 0))
            } else {
                spec_replicate_reg64(c.spec_gpr(op.rn as int), op.imms)
            };
            let lhs = Ir::And(ty, Operand::Ir(Box::new(top)), Operand::Immediate(ty, !tmask));
            let rhs = Ir::And(ty, Operand::Ir(Box::new(bot)), Operand::Immediate(ty, tmask));
            Ok(
                seq![
                    (
                        Ir::Or(ty, Operand::Ir(Box::new(lhs)), Operand::Ir(Box::new(rhs))),
                        c.spec_data_dest(op.rd),
                    ),
                ],
            )
        },
        Option::None => Err(TranslateError::UndefinedEncoding(spec_encode(AArch64Instr::Sbfm64(op)))),
    }
}

fn gen_sbfm(compiler: &AArch64Compiler, operand: Bitfield, ty: Type) -> (r: Result<
    IrBlock,
    TranslateError,
>)
    requires
        operand.wf(),
        ty == Type::U64 || ty == Type::U32,
    ensures
        match spec_gen_sbfm(*compiler, operand, ty) {
            Ok(entries) => r matches Ok(b) && b@ =~= entries && b.spec_instruction_size() == 4,
            Err(e) => r matches Err(e2) && e2 == e,
        },
{
    let mut block = IrBlock::new(4);
    let datasize = (ty.size() * 8) as u8;
    let masks = decode_bit_masks(operand.n, operand.imms, operand.immr, false, datasize);
    let (wmask, tmask) = match masks {
        Some(m) => m,
        Option::None => {
            return Err(TranslateError::UndefinedEncoding(encode(&AArch64Instr::Sbfm64(operand))));
        },
    };
    let src = compiler.data_src(operand.rn, ty);
    let r_op = Operand::Immediate(Type::U8, operand.immr as u64);
    let bot = Ir::And(ty, Operand::ir(Ir::Rotr(ty, src, r_op)), Operand::Immediate(ty, wmask));
    let top = if operand.rn == 31 {
        Ir::Value(Operand::imm(ty, 0))
    } else {
        replicate_reg64(compiler.gpr(operand.rn), operand.imms)
    };
    let lhs = Ir::And(ty, Operand::ir(top), Operand::Immediate(ty, !tmask));
    let rhs = Ir::And(ty, Operand::ir(bot), Operand::Immediate(ty, tmask));
    let ir = Ir::Or(ty, Operand::ir(lhs), Operand::ir(rhs));
    let ds = compiler.data_dest(operand.rd);
    block.append(ir, ds);
    Ok(block)
}

/// The block for ADD (extended register, 64-bit), or `UndefinedEncoding`
/// for a reserved left shift above four.  Both `rn` and `rd` resolve
/// register 31 to the stack register in this encoding.
pub open spec fn spec_gen_add_ext_reg64(c: AArch64Compiler, op: AddSubtractExtReg) -> Result<
    Seq<BlockEntry>,
    TranslateError,
> {
    if op.imm3 > 4 {
        Err(TranslateError::UndefinedEncoding(spec_encode(AArch64Instr::AddExtReg64(op))))
    } else {
        let op2 = if op.rm == 31 {
            Ir::Value(Operand::Immediate(Type::U64, 0))
        } else {
            spec_extend_reg(c.spec_gpr(op.rm as int), spec_decode_reg_extend(op.option), op.imm3, 8)
        };
        Ok(
            seq![
                (
                    Ir::Add(
                        Type::U64,
                        Operand::Register(Type::U64, c.spec_base_reg(op.rn)),
                        Operand::Ir(Box::new(op2)),
                    ),
                    BlockDestination::Gpr(c.spec_base_reg(op.rd)),
                ),
            ],
        )
    }
}

fn gen_add_ext_reg64(compiler: &AArch64Compiler, operand: AddSubtractExtReg) -> (r: Result<
    IrBlock,
    TranslateError,
>)
    requires
        operand.wf(),
    ensures
        match spec_gen_add_ext_reg64(*compiler, operand) {
            Ok(entries) => r matches Ok(b) && b@ =~= entries && b.spec_instruction_size() == 4,
            Err(e) => r matches Err(e2) && e2 == e,
        },
{
    if operand.imm3 > 4 {
        return Err(TranslateError::UndefinedEncoding(encode(&AArch64Instr::AddExtReg64(operand))));
    }
    let mut block = IrBlock::new(4);
    let ext_type = decode_reg_extend(operand.option);
    let op1 = compiler.base_reg(operand.rn);
    let op2 = if operand.rm == 31 {
        Ir::Value(Operand::imm(Type::U64, 0))
    } else {
        extend_reg(compiler.gpr(operand.rm), ext_type, operand.imm3, 8)
    };
    let ir = Ir::Add(Type::U64, Operand::reg(Type::U64, op1), Operand::ir(op2));
    let ds = BlockDestination::Gpr(compiler.base_reg(operand.rd));
    block.append(ir, ds);
    Ok(block)
}

/// The block for BL: the return address into the link register, then the
/// branch target into the program counter.
pub open spec fn spec_gen_bl_imm(c: AArch64Compiler, op: Imm26) -> Seq<BlockEntry> {
    let imm = spec_sign_extend((op.imm26 << 2u32) as i64, 28);
    seq![
        (
            Ir::Add(Type::U64, Operand::Ip, Operand::Immediate(Type::U64, 4)),
            BlockDestination::Gpr(c.spec_gpr(30)),
        ),
        (spec_gen_ip_relative(imm), BlockDestination::Ip),
    ]
}

fn gen_bl_imm(compiler: &AArch64Compiler, operand: Imm26) -> (r: IrBlock)
    requires
        operand.wf(),
    ensures
        r@ =~= spec_gen_bl_imm(*compiler, operand),
        r.instruction_size() == 4,
{
    let mut block = IrBlock::new(4);
    let ir = Ir::Add(Type::U64, Operand::Ip, Operand::imm(Type::U64, 4));
    let ds = BlockDestination::Gpr(compiler.gpr(30));
    block.append(ir, ds);
    let imm = sign_extend((operand.imm26 << 2u32) as i64, 28);
    let ir = gen_ip_relative(imm);
    let ds = BlockDestination::Ip;
    block.append(ir, ds);
    block
}

/// The block for B: the branch target into the program counter.
pub open spec fn spec_gen_b_imm(op: Imm26) -> Seq<BlockEntry> {
    let imm = spec_sign_extend((op.imm26 << 2u32) as i64, 28);
    seq![(spec_gen_ip_relative(imm), BlockDestination::Ip)]
}

fn gen_b_imm(_compiler: &AArch64Compiler, operand: Imm26) -> (r: IrBlock)
    requires
        operand.wf(),
    ensures
        r@ =~= spec_gen_b_imm(operand),
        r.instruction_size() == 4,
{
    let mut block = IrBlock::new(4);
    let imm = sign_extend((operand.imm26 << 2u32) as i64, 28);
    let ir = gen_ip_relative(imm);
    let ds = BlockDestination::Ip;
    block.append(ir, ds);
    block
}

/// The block for BR and RET: the target register into the program counter.
pub open spec fn spec_gen_br(c: AArch64Compiler, op: UncondBranchReg) -> Seq<BlockEntry> {
    seq![(Ir::Value(c.spec_data_src(op.rn, Type::U64)), BlockDestination::Ip)]
}

fn gen_br(compiler: &AArch64Compiler, operand: UncondBranchReg) -> (r: IrBlock)
    requires
        operand.wf(),
    ensures
        r@ =~= spec_gen_br(*compiler, operand),
        r.instruction_size() == 4,
{
    let mut block = IrBlock::new(4);
    let ir = Ir::Value(compiler.data_src(operand.rn, Type::U64));
    let ds = BlockDestination::Ip;
    block.append(ir, ds);
    block
}

/// The block for RET: like BR, the target register into the program
/// counter.
fn gen_ret(compiler: &AArch64Compiler, operand: UncondBranchReg) -> (r: IrBlock)
    requires
        operand.wf(),
    ensures
        r@ =~= spec_gen_br(*compiler, operand),
        r.instruction_size() == 4,
{
    let mut block = IrBlock::new(4);
    let ir = Ir::Value(compiler.data_src(operand.rn, Type::U64));
    let ds = BlockDestination::Ip;
    block.append(ir, ds);
    block
}

/// The block for BLR: the return address into the link register, then the
/// target register into the program counter.
pub open spec fn spec_gen_blr(c: AArch64Compiler, op: UncondBranchReg) -> Seq<BlockEntry> {
    seq![
        (
            Ir::Add(Type::U64, Operand::Ip, Operand::Immediate(Type::U64, 4)),
            BlockDestination::Gpr(c.spec_gpr(30)),
        ),
        (Ir::Value(c.spec_data_src(op.rn, Type::U64)), BlockDestination::Ip),
    ]
}

fn gen_blr(compiler: &AArch64Compiler, operand: UncondBranchReg) -> (r: IrBlock)
    requires
        operand.wf(),
    ensures
        r@ =~= spec_gen_blr(*compiler, operand),
        r.instruction_size() == 4,
{
    let mut block = IrBlock::new(4);
    let ir = Ir::Add(Type::U64, Operand::Ip, Operand::Immediate(Type::U64, 4));
    let ds = BlockDestination::Gpr(compiler.gpr(30));
    block.append(ir, ds);
    let ir = Ir::Value(compiler.data_src(operand.rn, Type::U64));
    let ds = BlockDestination::Ip;
    block.append(ir, ds);
    block
}

/// The block for B.cond: a conditional select between the branch target
/// and the fall-through address, into the program counter.
pub open spec fn spec_gen_b_cond(op: Imm19Cond) -> Seq<BlockEntry> {
    let offset = spec_sign_extend((op.imm19 << 2u32) as i64, 21);
    seq![
        (
            Ir::If(
                Type::U64,
                Operand::Ir(Box::new(spec_condition_holds(op.cond))),
                Operand::Ir(Box::new(spec_gen_ip_relative(offset))),
                Operand::Ir(Box::new(spec_gen_ip_relative(4))),
            ),
            BlockDestination::Ip,
        ),
    ]
}

fn gen_b_cond(_compiler: &AArch64Compiler, operand: Imm19Cond) -> (r: IrBlock)
    requires
        operand.wf(),
    ensures
        r@ =~= spec_gen_b_cond(operand),
        r.instruction_size() == 4,
{
    let mut block = IrBlock::new(4);
    let offset = sign_extend((operand.imm19 << 2u32) as i64, 21);
    let ir = Ir::If(
        Type::U64,
        Operand::ir(condition_holds(operand.cond)),
        Operand::ir(gen_ip_relative(offset)),
        Operand::ir(gen_ip_relative(4)),
    );
    let ds = BlockDestination::Ip;
    block.append(ir, ds);
    block
}

/// The block for CBZ (64-bit): branch to the target when the register
/// compares equal to zero, else fall through.
pub open spec fn spec_gen_cbz64(c: AArch64Compiler, op: Imm19Rt) -> Seq<BlockEntry> {
    let offset = spec_sign_extend((op.imm19 << 2u32) as i64, 21);
    let is_zero = spec_cmp_eq_op_imm64(c.spec_data_src(op.rt, Type::U64), 0);
    seq![
        (
            Ir::If(
                Type::U64,
                Operand::Ir(Box::new(is_zero)),
                Operand::Ir(Box::new(spec_gen_ip_relative(offset))),
                Operand::Ir(Box::new(spec_gen_ip_relative(4))),
            ),
            BlockDestination::Ip,
        ),
    ]
}

fn gen_cbz64(compiler: &AArch64Compiler, operand: Imm19Rt) -> (r: IrBlock)
    requires
        operand.wf(),
    ensures
        r@ =~= spec_gen_cbz64(*compiler, operand),
        r.instruction_size() == 4,
{
    let mut block = IrBlock::new(4);
    let offset = sign_extend((operand.imm19 << 2u32) as i64, 21);
    let is_zero = cmp_eq_op_imm64(compiler.data_src(operand.rt, Type::U64), 0);
    let ir = Ir::If(
        Type::U64,
        Operand::ir(is_zero),
        Operand::ir(gen_ip_relative(offset)),
        Operand::ir(gen_ip_relative(4)),
    );
    let ds = BlockDestination::Ip;
    block.append(ir, ds);
    block
}

/// The block for CBNZ: fall through when the register compares equal to
/// zero, else branch to the target.
pub open spec fn spec_gen_cbnz(c: AArch64Compiler, op: Imm19Rt, ty: Type) -> Seq<BlockEntry> {
    let offset = spec_sign_extend((op.imm19 << 2u32) as i64, 21);
    let is_zero = if ty == Type::U64 {
        spec_cmp_eq_op_imm64(c.spec_data_src(op.rt, ty), 0)
    } else {
        spec_cmp_eq_op_imm32(c.spec_data_src(op.rt, ty), 0)
    };
    seq![
        (
            Ir::If(
                Type::U64,
                Operand::Ir(Box::new(is_zero)),
                Operand::Ir(Box::new(spec_gen_ip_relative(4))),
                Operand::Ir(Box::new(spec_gen_ip_relative(offset))),
            ),
            BlockDestination::Ip,
        ),
    ]
}

fn gen_cbnz(compiler: &AArch64Compiler, operand: Imm19Rt, ty: Type) -> (r: IrBlock)
    requires
        operand.wf(),
    ensures
        r@ =~= spec_gen_cbnz(*compiler, operand, ty),
        r.instruction_size() == 4,
{
    let mut block = IrBlock::new(4);
    let offset = sign_extend((operand.imm19 << 2u32) as i64, 21);
    let is_zero = if ty == Type::U64 {
        cmp_eq_op_imm64(compiler.data_src(operand.rt, ty), 0)
    } else {
        cmp_eq_op_imm32(compiler.data_src(operand.rt, ty), 0)
    };
    let ir = Ir::If(
        Type::U64,
        Operand::ir(is_zero),
        Operand::ir(gen_ip_relative(4)),
        Operand::ir(gen_ip_relative(offset)),
    );
    let ds = BlockDestination::Ip;
    block.append(ir, ds);
    block
}

/// The block for CCMP (immediate): when the condition holds, a
/// flag-setting compare against the immediate folded into the flag word;
/// otherwise the `nzcv` literal replaces the flag bits.
pub open spec fn spec_gen_ccmp_imm(c: AArch64Compiler, op: CondCmpImm, ty: Type) -> Seq<
    BlockEntry,
> {
    let subc = Operand::VoidIr(
        Box::new(
            Ir::Subc(ty, c.spec_data_src(op.rn, ty), Operand::Immediate(ty, op.imm5 as u64)),
        ),
    );
    seq![
        (
            Ir::If(
                Type::Void,
                Operand::Ir(Box::new(spec_condition_holds(op.cond))),
                Operand::Ir(
                    Box::new(
                        Ir::Or(
                            Type::U64,
                            Operand::Flag,
                            Operand::Ir(Box::new(Ir::BitCast(Type::U64, subc))),
                        ),
                    ),
                ),
                Operand::Ir(Box::new(spec_replace_bits(Operand::Flag, op.nzcv as u64, 60, 64))),
            ),
            BlockDestination::Flags,
        ),
    ]
}

fn gen_ccmp_imm(compiler: &AArch64Compiler, operand: CondCmpImm, ty: Type) -> (r: IrBlock)
    requires
        operand.wf(),
    ensures
        r@ =~= spec_gen_ccmp_imm(*compiler, operand, ty),
        r.instruction_size() == 4,
{
    let mut block = IrBlock::new(4);
    let subc = Operand::void_ir(
        Ir::Subc(
            ty,
            compiler.data_src(operand.rn, ty),
            Operand::imm(ty, operand.imm5 as u64),
        ),
    );
    let ir = Ir::If(
        Type::Void,
        Operand::ir(condition_holds(operand.cond)),
        Operand::ir(
            Ir::Or(Type::U64, Operand::Flag, Operand::ir(Ir::BitCast(Type::U64, subc))),
        ),
        Operand::ir(replace_bits(Operand::Flag, operand.nzcv as u64, 60..64)),
    );
    let ds = BlockDestination::Flags;
    block.append(ir, ds);
    block
}

/// The block for CSEL (32-bit): the first register when the condition
/// holds, the second otherwise.
pub open spec fn spec_gen_csel32(c: AArch64Compiler, op: RmCondRnRd) -> Seq<BlockEntry> {
    seq![
        (
            Ir::If(
                Type::U32,
                Operand::Ir(Box::new(spec_condition_holds(op.cond))),
                c.spec_data_src(op.rn, Type::U32),
                c.spec_data_src(op.rm, Type::U32),
            ),
            c.spec_data_dest(op.rd),
        ),
    ]
}

fn gen_csel32(compiler: &AArch64Compiler, operand: RmCondRnRd) -> (r: IrBlock)
    requires
        operand.wf(),
    ensures
        r@ =~= spec_gen_csel32(*compiler, operand),
        r.instruction_size() == 4,
{
    let mut block = IrBlock::new(4);
    let rn = compiler.data_src(operand.rn, Type::U32);
    let rm = compiler.data_src(operand.rm, Type::U32);
    let ir = Ir::If(Type::U32, Operand::ir(condition_holds(operand.cond)), rn, rm);
    let ds = compiler.data_dest(operand.rd);
    block.append(ir, ds);
    block
}

/// The block for SVC: the immediate delivered as a system-call number.
pub open spec fn spec_gen_svc(op: ExceptionGen) -> Seq<BlockEntry> {
    seq![
        (
            Ir::Value(Operand::Immediate(Type::U16, op.imm16 as u64)),
            BlockDestination::SystemCall,
        ),
    ]
}

fn gen_svc(_compiler: &AArch64Compiler, operand: ExceptionGen) -> (r: IrBlock)
    ensures
        r@ =~= spec_gen_svc(operand),
        r.instruction_size() == 4,
{
    let mut block = IrBlock::new(4);
    let ir = Ir::Value(Operand::imm(Type::U16, operand.imm16 as u64));
    let ds = BlockDestination::SystemCall;
    block.append(ir, ds);
    block
}

/// The block for BRK and HLT: the immediate delivered as an exit code.
pub open spec fn spec_gen_brk(op: ExceptionGen) -> Seq<BlockEntry> {
    seq![(Ir::Value(Operand::Immediate(Type::U16, op.imm16 as u64)), BlockDestination::Exit)]
}

fn gen_brk(_compiler: &AArch64Compiler, operand: ExceptionGen) -> (r: IrBlock)
    ensures
        r@ =~= spec_gen_brk(operand),
        r.instruction_size() == 4,
{
    let mut block = IrBlock::new(4);
    let ir = Ir::Value(Operand::imm(Type::U16, operand.imm16 as u64));
    let ds = BlockDestination::Exit;
    block.append(ir, ds);
    block
}

/// The system-register address of `TPIDR_EL0`, as `(o0+2, op1, crn, crm, op2)`.
pub open spec fn spec_is_tpidr_el0(op: SysRegMov) -> bool {
    op.o0 == 1 && op.op1 == 3 && op.crn == 13 && op.crm == 0 && op.op2 == 2
}

/// The block for MRS, or `NotImplemented` for any system register other
/// than `TPIDR_EL0`, which reads a fixed placeholder thread pointer.
pub open spec fn spec_gen_mrs(c: AArch64Compiler, op: SysRegMov) -> Result<
    Seq<BlockEntry>,
    TranslateError,
> {
    if spec_is_tpidr_el0(op) {
        Ok(
            seq![
                (
                    Ir::Value(Operand::Immediate(Type::U64, 0x00000000004DFD58)),
                    c.spec_data_dest(op.rt),
                ),
            ],
        )
    } else {
        Err(TranslateError::NotImplemented(AArch64Instr::Mrs(op)))
    }
}

fn gen_mrs(compiler: &AArch64Compiler, operand: SysRegMov) -> (r: Result<IrBlock, TranslateError>)
    requires
        operand.wf(),
    ensures
        match spec_gen_mrs(*compiler, operand) {
            Ok(entries) => r matches Ok(b) && b@ =~= entries && b.spec_instruction_size() == 4,
            Err(e) => r matches Err(e2) && e2 == e,
        },
{
    if operand.o0 == 1 && operand.op1 == 3 && operand.crn == 13 && operand.crm == 0 && operand.op2
        == 2 {
        let mut block = IrBlock::new(4);
        let ir = Ir::Value(Operand::imm(Type::U64, 0x00000000004DFD58));
        let ds = compiler.data_dest(operand.rt);
        block.append(ir, ds);
        Ok(block)
    } else {
        Err(TranslateError::NotImplemented(AArch64Instr::Mrs(operand)))
    }
}

/// The block for NOP and WFI: a single entry with no effect.
pub open spec fn spec_gen_nop() -> Seq<BlockEntry> {
    seq![(Ir::Nop, BlockDestination::Discard)]
}

fn gen_nop(_compiler: &AArch64Compiler) -> (r: IrBlock)
    ensures
        r@ =~= spec_gen_nop(),
        r.instruction_size() == 4,
{
    let mut block = IrBlock::new(4);
    block.append(Ir::Nop, BlockDestination::Discard);
    block
}

/// Whether an opcode is a branch: its block is the only kind that may
/// write the program counter.
pub open spec fn is_branch(instr: AArch64Instr) -> bool {
    match instr {
        AArch64Instr::MovzVar32(_) => false,
        AArch64Instr::MovzVar64(_) => false,
        AArch64Instr::Adr(_) => false,
        AArch64Instr::Adrp(_) => false,
        AArch64Instr::OrrShiftedReg32(_) => false,
        AArch64Instr::OrrShiftedReg64(_) => false,
        AArch64Instr::LdrImm32(_) => false,
        AArch64Instr::LdrImm64(_) => false,
        AArch64Instr::StrImm32(_) => false,
        AArch64Instr::StrImm64(_) => false,
        AArch64Instr::LdrLitVar64(_) => false,
        AArch64Instr::StpVar32(_) => false,
        AArch64Instr::StpVar64(_) => false,
        AArch64Instr::LdrbImm(_) => false,
        AArch64Instr::LdrhImm(_) => false,
        AArch64Instr::LdrReg32(_) => false,
        AArch64Instr::LdrReg64(_) => false,
        AArch64Instr::AddImm64(_) => false,
        AArch64Instr::AddShiftedReg64(_) => false,
        AArch64Instr::AddExtReg64(_) => false,
        AArch64Instr::SubImm64(_) => false,
        AArch64Instr::SubShiftedReg64(_) => false,
        AArch64Instr::SubsShiftedReg64(_) => false,
        AArch64Instr::SubsImm32(_) => false,
        AArch64Instr::SubsImm64(_) => false,
        AArch64Instr::Ubfm64(_) => false,
        AArch64Instr::AndsImm64(_) => false,
        AArch64Instr::Sbfm64(_) => false,
        AArch64Instr::BImm(_) => true,
        AArch64Instr::BlImm(_) => true,
        AArch64Instr::Br(_) => true,
        AArch64Instr::Blr(_) => true,
        AArch64Instr::Ret(_) => true,
        AArch64Instr::BCond(_) => true,
        AArch64Instr::Cbz64(_) => true,
        AArch64Instr::Cbnz32(_) => true,
        AArch64Instr::Cbnz64(_) => true,
        AArch64Instr::CcmpImmVar32(_) => false,
        AArch64Instr::CcmpImmVar64(_) => false,
        AArch64Instr::Csel32(_) => false,
        AArch64Instr::Svc(_) => false,
        AArch64Instr::Brk(_) => false,
        AArch64Instr::Hlt(_) => false,
        AArch64Instr::Mrs(_) => false,
        AArch64Instr::Nop => false,
        AArch64Instr::Wfi => false,
        AArch64Instr::Yield => false,
        AArch64Instr::Wfe => false,
        AArch64Instr::Sev => false,
        AArch64Instr::Sevl => false,
    }
}

/// What the lowerer emits for each opcode: the entries of the block, or
/// the error the opcode raises.  `NotImplemented` names the opcodes the
/// lowerer refuses; reserved operand values yield `UndefinedEncoding` of
/// their re-encoded word.
pub open spec fn spec_compile(c: AArch64Compiler, instr: AArch64Instr) -> Result<
    Seq<BlockEntry>,
    TranslateError,
> {
    match instr {
        AArch64Instr::MovzVar32(op) => Ok(spec_gen_movz(c, op)),
        AArch64Instr::MovzVar64(op) => Ok(spec_gen_movz(c, op)),
        AArch64Instr::Adr(op) => Ok(spec_gen_adr(c, op)),
        AArch64Instr::Adrp(op) => Ok(spec_gen_adrp(c, op)),
        AArch64Instr::OrrShiftedReg32(op) => Ok(spec_gen_orr_shifted_reg(c, op, Type::U32)),
        AArch64Instr::OrrShiftedReg64(op) => Ok(spec_gen_orr_shifted_reg(c, op, Type::U64)),
        AArch64Instr::LdrImm32(op) => Ok(spec_gen_ldr_imm(c, op, Type::U32)),
        AArch64Instr::LdrImm64(op) => Ok(spec_gen_ldr_imm(c, op, Type::U64)),
        AArch64Instr::StrImm32(op) => Ok(spec_gen_str_imm(c, op, Type::U32)),
        AArch64Instr::StrImm64(op) => Ok(spec_gen_str_imm(c, op, Type::U64)),
        AArch64Instr::LdrLitVar64(op) => Ok(spec_gen_ldr_lit_var64(c, op)),
        AArch64Instr::StpVar32(op) => Ok(spec_gen_stp_var(c, op, Type::U32)),
        AArch64Instr::StpVar64(op) => Ok(spec_gen_stp_var(c, op, Type::U64)),
        AArch64Instr::LdrbImm(op) => Ok(spec_gen_ldrb_imm(c, op)),
        AArch64Instr::LdrhImm(op) => Ok(spec_gen_ldrh_imm(c, op)),
        AArch64Instr::LdrReg32(op) => Ok(spec_gen_ldr_reg(c, op, Type::U32)),
        AArch64Instr::LdrReg64(op) => Ok(spec_gen_ldr_reg(c, op, Type::U64)),
        AArch64Instr::AddImm64(op) => Ok(spec_gen_add_imm64(c, op)),
        AArch64Instr::AddShiftedReg64(op) => Ok(spec_gen_add_shifted_reg64(c, op)),
        AArch64Instr::AddExtReg64(op) => spec_gen_add_ext_reg64(c, op),
        AArch64Instr::SubImm64(op) => Ok(spec_gen_sub_imm64(c, op)),
        AArch64Instr::SubShiftedReg64(op) => Ok(spec_gen_sub_shifted_reg64(c, op)),
        AArch64Instr::SubsShiftedReg64(op) => Ok(spec_gen_subs_shifted_reg64(c, op)),
        AArch64Instr::SubsImm32(op) => Ok(spec_gen_subs_imm(c, op, Type::U32)),
        AArch64Instr::SubsImm64(op) => Ok(spec_gen_subs_imm(c, op, Type::U64)),
        AArch64Instr::Ubfm64(op) => spec_gen_ubfm(c, op, Type::U64),
        AArch64Instr::AndsImm64(op) => spec_gen_ands_imm64(c, op),
        AArch64Instr::Sbfm64(op) => spec_gen_sbfm(c, op, Type::U64),
        AArch64Instr::BImm(op) => Ok(spec_gen_b_imm(op)),
        AArch64Instr::BlImm(op) => Ok(spec_gen_bl_imm(c, op)),
        AArch64Instr::Br(op) => Ok(spec_gen_br(c, op)),
        AArch64Instr::Blr(op) => Ok(spec_gen_blr(c, op)),
        AArch64Instr::Ret(op) => Ok(spec_gen_br(c, op)),
        AArch64Instr::BCond(op) => Ok(spec_gen_b_cond(op)),
        AArch64Instr::Cbz64(op) => Ok(spec_gen_cbz64(c, op)),
        AArch64Instr::Cbnz32(op) => Ok(spec_gen_cbnz(c, op, Type::U32)),
        AArch64Instr::Cbnz64(op) => Ok(spec_gen_cbnz(c, op, Type::U64)),
        AArch64Instr::CcmpImmVar32(op) => Ok(spec_gen_ccmp_imm(c, op, Type::U32)),
        AArch64Instr::CcmpImmVar64(op) => Ok(spec_gen_ccmp_imm(c, op, Type::U64)),
        AArch64Instr::Csel32(op) => Ok(spec_gen_csel32(c, op)),
        AArch64Instr::Svc(op) => Ok(spec_gen_svc(op)),
        AArch64Instr::Brk(op) => Ok(spec_gen_brk(op)),
        AArch64Instr::Hlt(op) => Ok(spec_gen_brk(op)),
        AArch64Instr::Mrs(op) => spec_gen_mrs(c, op),
        AArch64Instr::Nop => Ok(spec_gen_nop()),
        AArch64Instr::Wfi => Ok(spec_gen_nop()),
        AArch64Instr::Yield => Err(TranslateError::NotImplemented(instr)),
        AArch64Instr::Wfe => Err(TranslateError::NotImplemented(instr)),
        AArch64Instr::Sev => Err(TranslateError::NotImplemented(instr)),
        AArch64Instr::Sevl => Err(TranslateError::NotImplemented(instr)),
    }
}

impl AArch64Compiler {
    /// Lowers one decoded instruction into its IR block, whose length is
    /// the four-byte guest instruction size, or returns the error
    /// [`spec_compile`] assigns to it.
    pub fn compile(&self, item: AArch64Instr) -> (r: Result<IrBlock, TranslateError>)
        requires
            item.wf(),
        ensures
            match spec_compile(*self, item) {
                Ok(entries) => r matches Ok(b) && b@ =~= entries && b.spec_instruction_size()
                    == 4,
                Err(e) => r matches Err(e2) && e2 == e,
            },
    {
        match item {
            AArch64Instr::MovzVar32(op) => Ok(gen_movz(self, op)),
            AArch64Instr::MovzVar64(op) => Ok(gen_movz(self, op)),
            AArch64Instr::Adr(op) => Ok(gen_adr(self, op)),
            AArch64Instr::Adrp(op) => Ok(gen_adrp(self, op)),
            AArch64Instr::OrrShiftedReg32(op) => Ok(gen_orr_shifted_reg(self, op, Type::U32)),
            AArch64Instr::OrrShiftedReg64(op) => Ok(gen_orr_shifted_reg(self, op, Type::U64)),
            AArch64Instr::LdrImm32(op) => Ok(gen_ldr_imm(self, op, Type::U32)),
            AArch64Instr::LdrImm64(op) => Ok(gen_ldr_imm(self, op, Type::U64)),
            AArch64Instr::StrImm32(op) => Ok(gen_str_imm(self, op, Type::U32)),
            AArch64Instr::StrImm64(op) => Ok(gen_str_imm(self, op, Type::U64)),
            AArch64Instr::LdrLitVar64(op) => Ok(gen_ldr_lit_var64(self, op)),
            AArch64Instr::StpVar32(op) => Ok(gen_stp_var(self, op, Type::U32)),
            AArch64Instr::StpVar64(op) => Ok(gen_stp_var(self, op, Type::U64)),
            AArch64Instr::LdrbImm(op) => Ok(gen_ldrb_imm(self, op)),
            AArch64Instr::LdrhImm(op) => Ok(gen_ldrh_imm(self, op)),
            AArch64Instr::LdrReg32(op) => Ok(gen_ldr_reg(self, op, Type::U32)),
            AArch64Instr::LdrReg64(op) => Ok(gen_ldr_reg(self, op, Type::U64)),
            AArch64Instr::AddImm64(op) => Ok(gen_add_imm64(self, op)),
            AArch64Instr::AddShiftedReg64(op) => Ok(gen_add_shifted_reg64(self, op)),
            AArch64Instr::AddExtReg64(op) => gen_add_ext_reg64(self, op),
            AArch64Instr::SubImm64(op) => Ok(gen_sub_imm64(self, op)),
            AArch64Instr::SubShiftedReg64(op) => Ok(gen_sub_shifted_reg_64(self, op)),
            AArch64Instr::SubsShiftedReg64(op) => Ok(gen_subs_shifted_reg_64(self, op)),
            AArch64Instr::SubsImm32(op) => Ok(gen_subs_imm(self, op, Type::U32)),
            AArch64Instr::SubsImm64(op) => Ok(gen_subs_imm(self, op, Type::U64)),
            AArch64Instr::Ubfm64(op) => gen_ubfm(self, op, Type::U64),
            AArch64Instr::AndsImm64(op) => gen_ands_imm64(self, op),
            AArch64Instr::Sbfm64(op) => gen_sbfm(self, op, Type::U64),
            AArch64Instr::BImm(op) => Ok(gen_b_imm(self, op)),
            AArch64Instr::BlImm(op) => Ok(gen_bl_imm(self, op)),
            AArch64Instr::Br(op) => Ok(gen_br(self, op)),
            AArch64Instr::Blr(op) => Ok(gen_blr(self, op)),
            AArch64Instr::Ret(op) => Ok(gen_ret(self, op)),
            AArch64Instr::BCond(op) => Ok(gen_b_cond(self, op)),
            AArch64Instr::Cbz64(op) => Ok(gen_cbz64(self, op)),
            AArch64Instr::Cbnz32(op) => Ok(gen_cbnz(self, op, Type::U32)),
            AArch64Instr::Cbnz64(op) => Ok(gen_cbnz(self, op, Type::U64)),
            AArch64Instr::CcmpImmVar32(op) => Ok(gen_ccmp_imm(self, op, Type::U32)),
            AArch64Instr::CcmpImmVar64(op) => Ok(gen_ccmp_imm(self, op, Type::U64)),
            AArch64Instr::Csel32(op) => Ok(gen_csel32(self, op)),
            AArch64Instr::Svc(op) => Ok(gen_svc(self, op)),
            AArch64Instr::Brk(op) => Ok(gen_brk(self, op)),
            AArch64Instr::Hlt(op) => Ok(gen_brk(self, op)),
            AArch64Instr::Mrs(op) => gen_mrs(self, op),
            AArch64Instr::Nop => Ok(gen_nop(self)),
            AArch64Instr::Wfi => Ok(gen_nop(self)),
            AArch64Instr::Yield => Err(TranslateError::NotImplemented(item)),
            AArch64Instr::Wfe => Err(TranslateError::NotImplemented(item)),
            AArch64Instr::Sev => Err(TranslateError::NotImplemented(item)),
            AArch64Instr::Sevl => Err(TranslateError::NotImplemented(item)),
        }
    }
}

/// Every destination of a lowered block is one of the destination forms:
/// a register, the program counter, the flags, relative memory, a system
/// call, an exit, or a discard.
pub proof fn lemma_destinations_well_formed(c: AArch64Compiler, instr: AArch64Instr)
    requires
        instr.wf(),
    ensures
        spec_compile(c, instr) matches Ok(entries) ==> forall|j: int|
            0 <= j < entries.len() ==> {
                let d = (#[trigger] entries[j]).1;
                ||| d is Discard
                ||| d is Gpr
                ||| d is Fpr
                ||| d is Ip
                ||| d is Flags
                ||| d is MemoryRel
                ||| d is SystemCall
                ||| d is Exit
            },
{
    // The case split over the opcode lets each arm's block unfold; every
    // arm then closes on its own.
    match instr {
        AArch64Instr::MovzVar32(_) => {},
        AArch64Instr::MovzVar64(_) => {},
        AArch64Instr::Adr(_) => {},
        AArch64Instr::Adrp(_) => {},
        AArch64Instr::OrrShiftedReg32(_) => {},
        AArch64Instr::OrrShiftedReg64(_) => {},
        AArch64Instr::LdrImm32(_) => {},
        AArch64Instr::LdrImm64(_) => {},
        AArch64Instr::StrImm32(_) => {},
        AArch64Instr::StrImm64(_) => {},
        AArch64Instr::LdrLitVar64(_) => {},
        AArch64Instr::StpVar32(_) => {},
        AArch64Instr::StpVar64(_) => {},
        AArch64Instr::LdrbImm(_) => {},
        AArch64Instr::LdrhImm(_) => {},
        AArch64Instr::LdrReg32(_) => {},
        AArch64Instr::LdrReg64(_) => {},
        AArch64Instr::AddImm64(_) => {},
        AArch64Instr::AddShiftedReg64(_) => {},
        AArch64Instr::AddExtReg64(_) => {},
        AArch64Instr::SubImm64(_) => {},
        AArch64Instr::SubShiftedReg64(_) => {},
        AArch64Instr::SubsShiftedReg64(_) => {},
        AArch64Instr::SubsImm32(_) => {},
        AArch64Instr::SubsImm64(_) => {},
        AArch64Instr::Ubfm64(_) => {},
        AArch64Instr::AndsImm64(_) => {},
        AArch64Instr::Sbfm64(_) => {},
        AArch64Instr::BImm(_) => {},
        AArch64Instr::BlImm(_) => {},
        AArch64Instr::Br(_) => {},
        AArch64Instr::Blr(_) => {},
        AArch64Instr::Ret(_) => {},
        AArch64Instr::BCond(_) => {},
        AArch64Instr::Cbz64(_) => {},
        AArch64Instr::Cbnz32(_) => {},
        AArch64Instr::Cbnz64(_) => {},
        AArch64Instr::CcmpImmVar32(_) => {},
        AArch64Instr::CcmpImmVar64(_) => {},
        AArch64Instr::Csel32(_) => {},
        AArch64Instr::Svc(_) => {},
        AArch64Instr::Brk(_) => {},
        AArch64Instr::Hlt(_) => {},
        AArch64Instr::Mrs(_) => {},
        AArch64Instr::Nop => {},
        AArch64Instr::Wfi => {},
        AArch64Instr::Yield => {},
        AArch64Instr::Wfe => {},
        AArch64Instr::Sev => {},
        AArch64Instr::Sevl => {},
    }
}

/// A block lowered from anything but a branch never writes the program
/// counter.
pub proof fn lemma_nonbranch_never_writes_ip(c: AArch64Compiler, instr: AArch64Instr)
    requires
        instr.wf(),
        !is_branch(instr),
    ensures
        spec_compile(c, instr) matches Ok(entries) ==> forall|j: int|
            0 <= j < entries.len() ==> (#[trigger] entries[j]).1 != BlockDestination::Ip,
{
    // The case split over the opcode lets each arm's block unfold; every
    // arm then closes on its own.
    match instr {
        AArch64Instr::MovzVar32(_) => {},
        AArch64Instr::MovzVar64(_) => {},
        AArch64Instr::Adr(_) => {},
        AArch64Instr::Adrp(_) => {},
        AArch64Instr::OrrShiftedReg32(_) => {},
        AArch64Instr::OrrShiftedReg64(_) => {},
        AArch64Instr::LdrImm32(_) => {},
        AArch64Instr::LdrImm64(_) => {},
        AArch64Instr::StrImm32(_) => {},
        AArch64Instr::StrImm64(_) => {},
        AArch64Instr::LdrLitVar64(_) => {},
        AArch64Instr::StpVar32(_) => {},
        AArch64Instr::StpVar64(_) => {},
        AArch64Instr::LdrbImm(_) => {},
        AArch64Instr::LdrhImm(_) => {},
        AArch64Instr::LdrReg32(_) => {},
        AArch64Instr::LdrReg64(_) => {},
        AArch64Instr::AddImm64(_) => {},
        AArch64Instr::AddShiftedReg64(_) => {},
        AArch64Instr::AddExtReg64(_) => {},
        AArch64Instr::SubImm64(_) => {},
        AArch64Instr::SubShiftedReg64(_) => {},
        AArch64Instr::SubsShiftedReg64(_) => {},
        AArch64Instr::SubsImm32(_) => {},
        AArch64Instr::SubsImm64(_) => {},
        AArch64Instr::Ubfm64(_) => {},
        AArch64Instr::AndsImm64(_) => {},
        AArch64Instr::Sbfm64(_) => {},
        AArch64Instr::BImm(_) => {},
        AArch64Instr::BlImm(_) => {},
        AArch64Instr::Br(_) => {},
        AArch64Instr::Blr(_) => {},
        AArch64Instr::Ret(_) => {},
        AArch64Instr::BCond(_) => {},
        AArch64Instr::Cbz64(_) => {},
        AArch64Instr::Cbnz32(_) => {},
        AArch64Instr::Cbnz64(_) => {},
        AArch64Instr::CcmpImmVar32(_) => {},
        AArch64Instr::CcmpImmVar64(_) => {},
        AArch64Instr::Csel32(_) => {},
        AArch64Instr::Svc(_) => {},
        AArch64Instr::Brk(_) => {},
        AArch64Instr::Hlt(_) => {},
        AArch64Instr::Mrs(_) => {},
        AArch64Instr::Nop => {},
        AArch64Instr::Wfi => {},
        AArch64Instr::Yield => {},
        AArch64Instr::Wfe => {},
        AArch64Instr::Sev => {},
        AArch64Instr::Sevl => {},
    }
}

/// A block lowered from a branch ends with exactly one entry whose
/// destination is the program counter: the last one.
pub proof fn lemma_branch_ends_with_ip(c: AArch64Compiler, instr: AArch64Instr)
    requires
        instr.wf(),
        is_branch(instr),
    ensures
        spec_compile(c, instr) matches Ok(entries) ==> entries.len() > 0 && entries[entries.len()
            - 1].1 == BlockDestination::Ip && (forall|j: int|
            0 <= j < entries.len() - 1 ==> (#[trigger] entries[j]).1 != BlockDestination::Ip),
{
    // The case split over the opcode lets each arm's block unfold; every
    // arm then closes on its own.
    match instr {
        AArch64Instr::MovzVar32(_) => {},
        AArch64Instr::MovzVar64(_) => {},
        AArch64Instr::Adr(_) => {},
        AArch64Instr::Adrp(_) => {},
        AArch64Instr::OrrShiftedReg32(_) => {},
        AArch64Instr::OrrShiftedReg64(_) => {},
        AArch64Instr::LdrImm32(_) => {},
        AArch64Instr::LdrImm64(_) => {},
        AArch64Instr::StrImm32(_) => {},
        AArch64Instr::StrImm64(_) => {},
        AArch64Instr::LdrLitVar64(_) => {},
        AArch64Instr::StpVar32(_) => {},
        AArch64Instr::StpVar64(_) => {},
        AArch64Instr::LdrbImm(_) => {},
        AArch64Instr::LdrhImm(_) => {},
        AArch64Instr::LdrReg32(_) => {},
        AArch64Instr::LdrReg64(_) => {},
        AArch64Instr::AddImm64(_) => {},
        AArch64Instr::AddShiftedReg64(_) => {},
        AArch64Instr::AddExtReg64(_) => {},
        AArch64Instr::SubImm64(_) => {},
        AArch64Instr::SubShiftedReg64(_) => {},
        AArch64Instr::SubsShiftedReg64(_) => {},
        AArch64Instr::SubsImm32(_) => {},
        AArch64Instr::SubsImm64(_) => {},
        AArch64Instr::Ubfm64(_) => {},
        AArch64Instr::AndsImm64(_) => {},
        AArch64Instr::Sbfm64(_) => {},
        AArch64Instr::BImm(_) => {},
        AArch64Instr::BlImm(_) => {},
        AArch64Instr::Br(_) => {},
        AArch64Instr::Blr(_) => {},
        AArch64Instr::Ret(_) => {},
        AArch64Instr::BCond(_) => {},
        AArch64Instr::Cbz64(_) => {},
        AArch64Instr::Cbnz32(_) => {},
        AArch64Instr::Cbnz64(_) => {},
        AArch64Instr::CcmpImmVar32(_) => {},
        AArch64Instr::CcmpImmVar64(_) => {},
        AArch64Instr::Csel32(_) => {},
        AArch64Instr::Svc(_) => {},
        AArch64Instr::Brk(_) => {},
        AArch64Instr::Hlt(_) => {},
        AArch64Instr::Mrs(_) => {},
        AArch64Instr::Nop => {},
        AArch64Instr::Wfi => {},
        AArch64Instr::Yield => {},
        AArch64Instr::Wfe => {},
        AArch64Instr::Sev => {},
        AArch64Instr::Sevl => {},
    }
}

} // verus!
