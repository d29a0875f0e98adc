//! Lowering helpers shared by the per-opcode compilers: shift and extension
//! decoding, the ARM `DecodeBitMasks` algorithm, load/store operand
//! decoding, condition-code tests over the NZCV word, and small IR builders.

use crate::bits::{low_mask64, replicate, spec_replicate, spec_sign_extend, sign_extend};
use crate::instruction::SizeImm12RnRt;
use crate::ir::{Ir, Operand, RegId, Type};
use core::ops::Range;
use vstd::prelude::*;

verus! {

/// A shift kind from a 2-bit shift field.
#[derive(Clone, Copy, Debug, PartialEq, Eq, Structural)]
pub enum ShiftType {
    LSL,
    LSR,
    ASR,
    ROR,
}

/// The shift kind a 2-bit field selects.
pub open spec fn spec_decode_shift(sh: u8) -> ShiftType {
    if sh == 0 {
        ShiftType::LSL
    } else if sh == 1 {
        ShiftType::LSR
    } else if sh == 2 {
        ShiftType::ASR
    } else {
        ShiftType::ROR
    }
}

/// Decodes a 2-bit shift field.
pub fn decode_shift(sh: u8) -> (r: ShiftType)
    ensures
        r == spec_decode_shift(sh),
{
    if sh == 0 {
        ShiftType::LSL
    } else if sh == 1 {
        ShiftType::LSR
    } else if sh == 2 {
        ShiftType::ASR
    } else {
        ShiftType::ROR
    }
}

/// The IR for a register shifted by a constant amount.
pub open spec fn spec_shift_reg(reg: RegId, kind: ShiftType, amount: u64, ty: Type) -> Ir {
    let src = Operand::Register(ty, reg);
    let amt = Operand::Immediate(Type::U8, amount);
    match kind {
        ShiftType::LSL => Ir::Shl(ty, src, amt),
        ShiftType::LSR => Ir::LShr(ty, src, amt),
        ShiftType::ASR => Ir::AShr(ty, src, amt),
        ShiftType::ROR => Ir::Rotr(ty, src, amt),
    }
}

/// Builds the IR for a register shifted by a constant amount.
pub fn shift_reg(reg: RegId, kind: ShiftType, amount: u64, ty: Type) -> (r: Ir)
    ensures
        r == spec_shift_reg(reg, kind, amount, ty),
{
    let src = Operand::Register(ty, reg);
    let amt = Operand::Immediate(Type::U8, amount);
    match kind {
        ShiftType::LSL => Ir::Shl(ty, src, amt),
        ShiftType::LSR => Ir::LShr(ty, src, amt),
        ShiftType::ASR => Ir::AShr(ty, src, amt),
        ShiftType::ROR => Ir::Rotr(ty, src, amt),
    }
}

/// A register-extension kind from a 3-bit option field.
#[derive(Clone, Copy, Debug, PartialEq, Eq, Structural)]
pub enum RegExtend {
    UXTB,
    UXTH,
    UXTW,
    UXTX,
    SXTB,
    SXTH,
    SXTW,
    SXTX,
}

/// The extension kind a 3-bit option field selects.
pub open spec fn spec_decode_reg_extend(option: u8) -> RegExtend {
    if option == 0 {
        RegExtend::UXTB
    } else if option == 1 {
        RegExtend::UXTH
    } else if option == 2 {
        RegExtend::UXTW
    } else if option == 3 {
        RegExtend::UXTX
    } else if option == 4 {
        RegExtend::SXTB
    } else if option == 5 {
        RegExtend::SXTH
    } else if option == 6 {
        RegExtend::SXTW
    } else {
        RegExtend::SXTX
    }
}

/// Decodes a 3-bit register-extension option field.
pub fn decode_reg_extend(option: u8) -> (r: RegExtend)
    ensures
        r == spec_decode_reg_extend(option),
{
    if option == 0 {
        RegExtend::UXTB
    } else if option == 1 {
        RegExtend::UXTH
    } else if option == 2 {
        RegExtend::UXTW
    } else if option == 3 {
        RegExtend::UXTX
    } else if option == 4 {
        RegExtend::SXTB
    } else if option == 5 {
        RegExtend::SXTH
    } else if option == 6 {
        RegExtend::SXTW
    } else {
        RegExtend::SXTX
    }
}

/// The result type a byte width selects: 8 bytes is `U64`, anything
/// narrower is `U32`.
pub open spec fn spec_width_type(nbytes: u8) -> Type {
    if nbytes == 8 {
        Type::U64
    } else {
        Type::U32
    }
}

/// The IR for a register narrowed to the extension's source width,
/// zero- or sign-extended to the destination width, then shifted left.
pub open spec fn spec_extend_reg(reg: RegId, ext: RegExtend, shift: u8, nbytes: u8) -> Ir {
    let ty = spec_width_type(nbytes);
    let src = Operand::Register(ty, reg);
    let extended = match ext {
        RegExtend::UXTB => Ir::ZextCast(ty, Operand::Ir(Box::new(Ir::BitCast(Type::U8, src)))),
        RegExtend::UXTH => Ir::ZextCast(ty, Operand::Ir(Box::new(Ir::BitCast(Type::U16, src)))),
        RegExtend::UXTW => Ir::ZextCast(ty, Operand::Ir(Box::new(Ir::BitCast(Type::U32, src)))),
        RegExtend::UXTX => Ir::Value(src),
        RegExtend::SXTB => Ir::SextCast(ty, Operand::Ir(Box::new(Ir::BitCast(Type::I8, src)))),
        RegExtend::SXTH => Ir::SextCast(ty, Operand::Ir(Box::new(Ir::BitCast(Type::I16, src)))),
        RegExtend::SXTW => Ir::SextCast(ty, Operand::Ir(Box::new(Ir::BitCast(Type::I32, src)))),
        RegExtend::SXTX => Ir::Value(src),
    };
    Ir::Shl(ty, Operand::Ir(Box::new(extended)), Operand::Immediate(Type::U8, shift as u64))
}

/// Builds the IR for an extended register operand: narrow, extend to the
/// destination width, then shift left by up to four bits.
pub fn extend_reg(reg: RegId, ext: RegExtend, shift: u8, nbytes: u8) -> (r: Ir)
    ensures
        r == spec_extend_reg(reg, ext, shift, nbytes),
{
    let ty = if nbytes == 8 {
        Type::U64
    } else {
        Type::U32
    };
    let src = Operand::Register(ty, reg);
    let extended = match ext {
        RegExtend::UXTB => Ir::ZextCast(ty, Operand::ir(Ir::BitCast(Type::U8, src))),
        RegExtend::UXTH => Ir::ZextCast(ty, Operand::ir(Ir::BitCast(Type::U16, src))),
        RegExtend::UXTW => Ir::ZextCast(ty, Operand::ir(Ir::BitCast(Type::U32, src))),
        RegExtend::UXTX => Ir::Value(src),
        RegExtend::SXTB => Ir::SextCast(ty, Operand::ir(Ir::BitCast(Type::I8, src))),
        RegExtend::SXTH => Ir::SextCast(ty, Operand::ir(Ir::BitCast(Type::I16, src))),
        RegExtend::SXTW => Ir::SextCast(ty, Operand::ir(Ir::BitCast(Type::I32, src))),
        RegExtend::SXTX => Ir::Value(src),
    };
    Ir::Shl(ty, Operand::ir(extended), Operand::Immediate(Type::U8, shift as u64))
}

/// The index of the highest set bit among the low `n` bits of `x`, or `-1`
/// when they are all clear.
pub open spec fn spec_highest_set_bit(x: u64, n: int) -> int
    decreases n,
{
    if n <= 0 {
        -1
    } else if x & (1u64 << ((n - 1) as u32)) != 0 {
        n - 1
    } else {
        spec_highest_set_bit(x, n - 1)
    }
}

/// `x` rotated right by `r` within an `esize`-bit window.
pub open spec fn spec_ror(x: u64, r: u64, esize: u64) -> u64
    recommends
        r < esize <= 64,
{
    if r == 0 {
        x & low_mask64(esize as u32)
    } else {
        ((x >> (r as u32)) | (x << ((esize - r) as u32))) & low_mask64(esize as u32)
    }
}

/// The ARM `DecodeBitMasks` algorithm: the element length is read from
/// `n:NOT(imms)`, the element masks are built from the sub-field lengths
/// `s` and `d = (s - r) mod esize`, rotated and tiled across `datasize`
/// bits.  Reserved inputs (no element length, an element wider than the
/// datasize, or an all-ones immediate mask) yield `None`.
pub open spec fn spec_decode_bit_masks(
    n: u8,
    imms: u8,
    immr: u8,
    immediate: bool,
    datasize: u8,
) -> Option<(u64, u64)>
    recommends
        n < 2,
        imms < 64,
        immr < 64,
{
    let combined = ((n as u64) << 6u32) | ((imms as u64) ^ 0x3F);
    let len = spec_highest_set_bit(combined, 7);
    if len < 1 {
        Option::None
    } else {
        let esize = 1u64 << (len as u32);
        if esize > datasize as u64 {
            Option::None
        } else {
            let levels = low_mask64(len as u32);
            let s = (imms as u64) & levels;
            let r = (immr as u64) & levels;
            if immediate && s == levels {
                Option::None
            } else {
                let d = (s + esize - r) % (esize as int);
                let welem = low_mask64((s + 1) as u32);
                let telem = low_mask64((d + 1) as u32);
                let count = ((datasize as u64) / esize) as u32;
                let wmask = spec_replicate(spec_ror(welem, r, esize), esize as u32, count);
                let tmask = spec_replicate(telem, esize as u32, count);
                Some((wmask, tmask))
            }
        }
    }
}

/// Computes the ARM `DecodeBitMasks` pair `(wmask, tmask)`, or `None` for a
/// reserved encoding.
pub fn decode_bit_masks(n: u8, imms: u8, immr: u8, immediate: bool, datasize: u8) -> (r: Option<
    (u64, u64),
>)
    requires
        n < 2,
        imms < 64,
        immr < 64,
        datasize == 8 || datasize == 16 || datasize == 32 || datasize == 64,
    ensures
        r == spec_decode_bit_masks(n, imms, immr, immediate, datasize),
{
    let combined: u64 = ((n as u64) << 6u32) | ((imms as u64) ^ 0x3F);
    let len: u64 = if combined >= 64 {
        6
    } else if combined >= 32 {
        5
    } else if combined >= 16 {
        4
    } else if combined >= 8 {
        3
    } else if combined >= 4 {
        2
    } else if combined >= 2 {
        1
    } else {
        0
    };
    proof {
        let c = combined;
        assert({
            &&& c >= 64 && c < 128 ==> spec_highest_set_bit(c, 7) == 6
            &&& c >= 32 && c < 64 ==> spec_highest_set_bit(c, 7) == 5
            &&& c >= 16 && c < 32 ==> spec_highest_set_bit(c, 7) == 4
            &&& c >= 8 && c < 16 ==> spec_highest_set_bit(c, 7) == 3
            &&& c >= 4 && c < 8 ==> spec_highest_set_bit(c, 7) == 2
            &&& c >= 2 && c < 4 ==> spec_highest_set_bit(c, 7) == 1
            &&& c == 1 ==> spec_highest_set_bit(c, 7) == 0
            &&& c == 0 ==> spec_highest_set_bit(c, 7) == -1
        }) by (bit_vector);
        assert(combined < 128) by (bit_vector)
            requires
                combined == ((n as u64) << 6u32) | ((imms as u64) ^ 0x3F) && n < 2 && imms < 64,
        ;
    }
    if len < 1 {
        return Option::None;
    }
    let esize: u64 = 1u64 << (len as u32);
    proof {
        let l = len;
        assert(1 <= l <= 6 ==> ((1u64 << (l as u32)) == 2 || (1u64 << (l as u32)) == 4 || (1u64
            << (l as u32)) == 8 || (1u64 << (l as u32)) == 16 || (1u64 << (l as u32)) == 32 || (
        1u64 << (l as u32)) == 64)) by (bit_vector);
    }
    if esize > datasize as u64 {
        return Option::None;
    }
    let levels: u64 = low_mask(len as u32);
    proof {
        let l = len;
        assert(1 <= l <= 6 ==> ((1u64 << (l as u32)) - 1) < 64) by (bit_vector);
    }
    let s: u64 = (imms as u64) & levels;
    let r: u64 = (immr as u64) & levels;
    proof {
        let l = len;
        let es = esize;
        let lv = levels;
        let s0 = s;
        let r0 = r;
        assert((1 <= l <= 6 && es == (1u64 << (l as u32)) && lv == ((1u64 << (l as u32)) - 1)
            && s0 == (imms as u64) & lv && r0 == (immr as u64) & lv) ==> (s0 < es && r0 < es && s0
            <= lv)) by (bit_vector);
    }
    if immediate && s == levels {
        return Option::None;
    }
    let d: u64 = (s + esize - r) % esize;
    let welem: u64 = low_mask((s + 1) as u32);
    let telem: u64 = low_mask((d + 1) as u32);
    proof {
        let es = esize;
        let s0 = s;
        let d0 = d;
        let ds = datasize;
        assert((s0 < es && es <= 64 && d0 < es) ==> {
            &&& (if (s0 + 1) as u32 == 64 {
                0xFFFF_FFFF_FFFF_FFFFu64
            } else {
                ((1u64 << ((s0 + 1) as u32)) - 1) as u64
            }) & (if es as u32 == 64 {
                0xFFFF_FFFF_FFFF_FFFFu64
            } else {
                ((1u64 << (es as u32)) - 1) as u64
            }) == (if (s0 + 1) as u32 == 64 {
                0xFFFF_FFFF_FFFF_FFFFu64
            } else {
                ((1u64 << ((s0 + 1) as u32)) - 1) as u64
            })
            &&& (if (d0 + 1) as u32 == 64 {
                0xFFFF_FFFF_FFFF_FFFFu64
            } else {
                ((1u64 << ((d0 + 1) as u32)) - 1) as u64
            }) & (if es as u32 == 64 {
                0xFFFF_FFFF_FFFF_FFFFu64
            } else {
                ((1u64 << (es as u32)) - 1) as u64
            }) == (if (d0 + 1) as u32 == 64 {
                0xFFFF_FFFF_FFFF_FFFFu64
            } else {
                ((1u64 << ((d0 + 1) as u32)) - 1) as u64
            })
        }) by (bit_vector);
        assert((es == 2 || es == 4 || es == 8 || es == 16 || es == 32 || es == 64) && (ds == 8 || ds
            == 16 || ds == 32 || ds == 64) && es <= ds ==> (ds as u32) % (es as u32) == 0 && ((
        ds as u32) / (es as u32)) >= 1 && ((ds as u32) / (es as u32)) == ((ds as u64) / es) as u32)
            by (bit_vector);
        assert(low_mask64((s + 1) as u32) & low_mask64(esize as u32) == low_mask64((s + 1) as u32));
    }
    let rotated: u64 = ror(welem, r, esize);
    proof {
        let es = esize;
        let a = welem;
        let r0 = r;
        assert(es <= 64 && r0 < es ==> spec_ror(a, r0, es) & low_mask64(es as u32) == spec_ror(
            a,
            r0,
            es,
        )) by (bit_vector);
    }
    let wmask: u64 = replicate(rotated, esize as u32, datasize as u32);
    let tmask: u64 = replicate(telem, esize as u32, datasize as u32);
    Some((wmask, tmask))
}

/// Returns a mask with the low `width` bits set.
fn low_mask(width: u32) -> (r: u64)
    requires
        width <= 64,
    ensures
        r == low_mask64(width),
{
    if width == 64 {
        0xFFFF_FFFF_FFFF_FFFF
    } else {
        proof {
            let w = width;
            assert(w < 64 ==> 1u64 << w >= 1) by (bit_vector);
        }
        (1u64 << width) - 1
    }
}

/// Rotates `x` right by `r` within an `esize`-bit window.
fn ror(x: u64, r: u64, esize: u64) -> (res: u64)
    requires
        r < esize,
        esize <= 64,
    ensures
        res == spec_ror(x, r, esize),
{
    let mask = low_mask(esize as u32);
    if r == 0 {
        x & mask
    } else {
        ((x >> (r as u32)) | (x << ((esize - r) as u32))) & mask
    }
}

/// The addressing decode of a load/store (immediate) operand, as the tuple
/// `(writeback, post-index, scale, byte offset)`.  Bit 24 of the word
/// (stored in `opc`) selects the unsigned-offset form, whose `imm12` is
/// scaled; otherwise the low two bits of the immediate field select the
/// pre/post-indexed forms around a 9-bit signed offset.
pub open spec fn spec_decode_operand_for_ld_st_reg_imm(op: SizeImm12RnRt) -> (bool, bool, u8, i64) {
    if (op.opc >> 2u32) & 1 == 1 {
        (false, false, op.size, (op.imm12 as i64) << (op.size as u32))
    } else {
        let idx = op.imm12 & 3;
        let offset = spec_sign_extend((op.imm12 >> 2u32) as i64, 9);
        (idx == 1 || idx == 3, idx == 1, op.size, offset)
    }
}

/// Decodes the addressing mode of a load/store (immediate) operand:
/// `(writeback, post-index, scale, byte offset)`.
pub fn decode_operand_for_ld_st_reg_imm(op: SizeImm12RnRt) -> (r: (bool, bool, u8, i64))
    requires
        op.wf(),
    ensures
        r == spec_decode_operand_for_ld_st_reg_imm(op),
{
    if (op.opc >> 2u32) & 1 == 1 {
        (false, false, op.size, (op.imm12 as i64) << (op.size as u32))
    } else {
        let idx = op.imm12 & 3;
        let offset = sign_extend((op.imm12 >> 2u32) as i64, 9);
        (idx == 1 || idx == 3, idx == 1, op.size, offset)
    }
}

/// The `(writeback, post-index)` pair a load/store-pair mode field selects:
/// `001` is post-indexed, `011` pre-indexed, `010` a plain signed offset.
pub open spec fn spec_decode_o_for_ld_st_pair_offset(o: u8) -> (bool, bool) {
    (o == 1 || o == 3, o == 1)
}

/// Decodes the 3-bit load/store-pair index mode into `(writeback, post-index)`.
pub fn decode_o_for_ld_st_pair_offset(o: u8) -> (r: (bool, bool))
    ensures
        r == spec_decode_o_for_ld_st_pair_offset(o),
{
    (o == 1 || o == 3, o == 1)
}

/// The NZCV bit masks inside the 64-bit flag word.
pub open spec fn flag_n_mask() -> u64 {
    0x8000_0000_0000_0000
}

/// The Z bit of the flag word.
pub open spec fn flag_z_mask() -> u64 {
    0x4000_0000_0000_0000
}

/// The C bit of the flag word.
pub open spec fn flag_c_mask() -> u64 {
    0x2000_0000_0000_0000
}

/// The V bit of the flag word.
pub open spec fn flag_v_mask() -> u64 {
    0x1000_0000_0000_0000
}

/// A `Bool` IR that tests one flag bit: set when `set`, clear otherwise.
pub open spec fn spec_flag_test(mask: u64, set: bool) -> Ir {
    let masked = Operand::Ir(
        Box::new(Ir::And(Type::U64, Operand::Flag, Operand::Immediate(Type::U64, mask))),
    );
    let zero = Operand::Immediate(Type::U64, 0);
    if set {
        Ir::CmpNe(Type::U64, masked, zero)
    } else {
        Ir::CmpEq(Type::U64, masked, zero)
    }
}

/// Builds a `Bool` IR testing one flag bit.
fn flag_test(mask: u64, set: bool) -> (r: Ir)
    ensures
        r == spec_flag_test(mask, set),
{
    let masked = Operand::ir(Ir::And(Type::U64, Operand::Flag, Operand::Immediate(Type::U64, mask)));
    let zero = Operand::Immediate(Type::U64, 0);
    if set {
        Ir::CmpNe(Type::U64, masked, zero)
    } else {
        Ir::CmpEq(Type::U64, masked, zero)
    }
}

/// A `Bool` IR comparing the N and V flags: equal when `eq`, different
/// otherwise.
pub open spec fn spec_nv_test(eq: bool) -> Ir {
    let n = Operand::Ir(
        Box::new(
            Ir::And(
                Type::U64,
                Operand::Ir(
                    Box::new(Ir::LShr(Type::U64, Operand::Flag, Operand::Immediate(Type::U8, 63))),
                ),
                Operand::Immediate(Type::U64, 1),
            ),
        ),
    );
    let v = Operand::Ir(
        Box::new(
            Ir::And(
                Type::U64,
                Operand::Ir(
                    Box::new(Ir::LShr(Type::U64, Operand::Flag, Operand::Immediate(Type::U8, 60))),
                ),
                Operand::Immediate(Type::U64, 1),
            ),
        ),
    );
    if eq {
        Ir::CmpEq(Type::U64, n, v)
    } else {
        Ir::CmpNe(Type::U64, n, v)
    }
}

/// Builds a `Bool` IR comparing the N and V flags.
fn nv_test(eq: bool) -> (r: Ir)
    ensures
        r == spec_nv_test(eq),
{
    let n = Operand::ir(
        Ir::And(
            Type::U64,
            Operand::ir(Ir::LShr(Type::U64, Operand::Flag, Operand::Immediate(Type::U8, 63))),
            Operand::Immediate(Type::U64, 1),
        ),
    );
    let v = Operand::ir(
        Ir::And(
            Type::U64,
            Operand::ir(Ir::LShr(Type::U64, Operand::Flag, Operand::Immediate(Type::U8, 60))),
            Operand::Immediate(Type::U64, 1),
        ),
    );
    if eq {
        Ir::CmpEq(Type::U64, n, v)
    } else {
        Ir::CmpNe(Type::U64, n, v)
    }
}

/// The `Bool` IR of one base condition (bits 3..1 of the condition code),
/// either as stated (`pos`) or negated, per the ARM condition table.
pub open spec fn spec_cond_base(base: u8, pos: bool) -> Ir {
    if base == 0 {
        spec_flag_test(flag_z_mask(), pos)
    } else if base == 1 {
        spec_flag_test(flag_c_mask(), pos)
    } else if base == 2 {
        spec_flag_test(flag_n_mask(), pos)
    } else if base == 3 {
        spec_flag_test(flag_v_mask(), pos)
    } else if base == 4 {
        if pos {
            Ir::And(
                Type::Bool,
                Operand::Ir(Box::new(spec_flag_test(flag_c_mask(), true))),
                Operand::Ir(Box::new(spec_flag_test(flag_z_mask(), false))),
            )
        } else {
            Ir::Or(
                Type::Bool,
                Operand::Ir(Box::new(spec_flag_test(flag_c_mask(), false))),
                Operand::Ir(Box::new(spec_flag_test(flag_z_mask(), true))),
            )
        }
    } else if base == 5 {
        spec_nv_test(pos)
    } else if base == 6 {
        if pos {
            Ir::And(
                Type::Bool,
                Operand::Ir(Box::new(spec_flag_test(flag_z_mask(), false))),
                Operand::Ir(Box::new(spec_nv_test(true))),
            )
        } else {
            Ir::Or(
                Type::Bool,
                Operand::Ir(Box::new(spec_flag_test(flag_z_mask(), true))),
                Operand::Ir(Box::new(spec_nv_test(false))),
            )
        }
    } else {
        Ir::Value(Operand::Immediate(Type::Bool, 1))
    }
}

/// The `Bool` IR of a 4-bit condition code over the current flag word: the
/// base condition from bits 3..1, negated when bit 0 is set — except for
/// code 15, which like 14 always holds.
pub open spec fn spec_condition_holds(cond: u8) -> Ir {
    spec_cond_base(cond >> 1u32, !(cond & 1 == 1 && cond != 15))
}

/// Builds the `Bool` IR that decides a 4-bit condition code from the
/// current flag word, per the ARM condition table.
pub fn condition_holds(cond: u8) -> (r: Ir)
    ensures
        r == spec_condition_holds(cond),
{
    let base = cond >> 1u32;
    let pos = !(cond & 1 == 1 && cond != 15);
    if base == 0 {
        flag_test(0x4000_0000_0000_0000, pos)
    } else if base == 1 {
        flag_test(0x2000_0000_0000_0000, pos)
    } else if base == 2 {
        flag_test(0x8000_0000_0000_0000, pos)
    } else if base == 3 {
        flag_test(0x1000_0000_0000_0000, pos)
    } else if base == 4 {
        if pos {
            Ir::And(
                Type::Bool,
                Operand::ir(flag_test(0x2000_0000_0000_0000, true)),
                Operand::ir(flag_test(0x4000_0000_0000_0000, false)),
            )
        } else {
            Ir::Or(
                Type::Bool,
                Operand::ir(flag_test(0x2000_0000_0000_0000, false)),
                Operand::ir(flag_test(0x4000_0000_0000_0000, true)),
            )
        }
    } else if base == 5 {
        nv_test(pos)
    } else if base == 6 {
        if pos {
            Ir::And(
                Type::Bool,
                Operand::ir(flag_test(0x4000_0000_0000_0000, false)),
                Operand::ir(nv_test(true)),
            )
        } else {
            Ir::Or(
                Type::Bool,
                Operand::ir(flag_test(0x4000_0000_0000_0000, true)),
                Operand::ir(nv_test(false)),
            )
        }
    } else {
        Ir::Value(Operand::Immediate(Type::Bool, 1))
    }
}

/// The IR of an address relative to the current program counter.
pub open spec fn spec_gen_ip_relative(offset: i64) -> Ir {
    Ir::Add(Type::U64, Operand::Ip, Operand::Immediate(Type::I64, offset as u64))
}

/// Builds `Ip + offset` as IR.
pub fn gen_ip_relative(offset: i64) -> (r: Ir)
    ensures
        r == spec_gen_ip_relative(offset),
{
    Ir::Add(Type::U64, Operand::Ip, Operand::Immediate(Type::I64, offset as u64))
}

/// The `Bool` IR comparing a 64-bit operand against a constant.
pub open spec fn spec_cmp_eq_op_imm64(op: Operand, imm: u64) -> Ir {
    Ir::CmpEq(Type::U64, op, Operand::Immediate(Type::U64, imm))
}

/// Builds a 64-bit equality test against a constant.
pub fn cmp_eq_op_imm64(op: Operand, imm: u64) -> (r: Ir)
    ensures
        r == spec_cmp_eq_op_imm64(op, imm),
{
    Ir::CmpEq(Type::U64, op, Operand::Immediate(Type::U64, imm))
}

/// The `Bool` IR comparing a 32-bit operand against a constant.
pub open spec fn spec_cmp_eq_op_imm32(op: Operand, imm: u64) -> Ir {
    Ir::CmpEq(Type::U32, op, Operand::Immediate(Type::U32, imm))
}

/// Builds a 32-bit equality test against a constant.
pub fn cmp_eq_op_imm32(op: Operand, imm: u64) -> (r: Ir)
    ensures
        r == spec_cmp_eq_op_imm32(op, imm),
{
    Ir::CmpEq(Type::U32, op, Operand::Immediate(Type::U32, imm))
}

/// The IR that broadcasts bit `imms` of a register across all 64 bits: the
/// bit is shifted up to the sign position and arithmetically shifted back.
pub open spec fn spec_replicate_reg64(reg: RegId, imms: u8) -> Ir {
    Ir::AShr(
        Type::I64,
        Operand::Ir(
            Box::new(
                Ir::Shl(
                    Type::I64,
                    Operand::Register(Type::I64, reg),
                    Operand::Immediate(Type::U8, (63 - imms) as u64),
                ),
            ),
        ),
        Operand::Immediate(Type::U8, 63),
    )
}

/// Builds the IR replicating bit `imms` of a register across 64 bits.
pub fn replicate_reg64(reg: RegId, imms: u8) -> (r: Ir)
    requires
        imms < 64,
    ensures
        r == spec_replicate_reg64(reg, imms),
{
    Ir::AShr(
        Type::I64,
        Operand::ir(
            Ir::Shl(
                Type::I64,
                Operand::Register(Type::I64, reg),
                Operand::Immediate(Type::U8, (63 - imms) as u64),
            ),
        ),
        Operand::Immediate(Type::U8, 63),
    )
}

/// The IR that replaces the bit range `[lo, hi)` of a 64-bit operand with a
/// constant: the range is cleared and the shifted constant is folded in.
pub open spec fn spec_replace_bits(op: Operand, value: u64, lo: u32, hi: u32) -> Ir {
    let mask = low_mask64(((hi - lo) as u32)) << lo;
    Ir::Or(
        Type::U64,
        Operand::Ir(Box::new(Ir::And(Type::U64, op, Operand::Immediate(Type::U64, !mask)))),
        Operand::Immediate(Type::U64, (value << lo) & mask),
    )
}

/// Builds the IR replacing the bit range of a 64-bit operand with a constant.
pub fn replace_bits(op: Operand, value: u64, range: Range<usize>) -> (r: Ir)
    requires
        range.start < range.end,
        range.end <= 64,
    ensures
        r == spec_replace_bits(op, value, range.start as u32, range.end as u32),
{
    let lo: u32 = range.start as u32;
    let hi: u32 = range.end as u32;
    let mask: u64 = low_mask(hi - lo) << lo;
    Ir::Or(
        Type::U64,
        Operand::ir(Ir::And(Type::U64, op, Operand::Immediate(Type::U64, !mask))),
        Operand::Immediate(Type::U64, (value << lo) & mask),
    )
}

} // verus!
