//! Unit tests for the bit primitives, the pattern parser, and the ARM
//! `DecodeBitMasks` algorithm.

use aarch64_ir::bits::{extract_bits32, replicate, sign_extend};
use aarch64_ir::decode::EncodingRow;
use aarch64_ir::bit_patterns::{BitPatternMatcher, Match};
use aarch64_ir::instruction::AArch64Instr;
use aarch64_ir::lowering::{
    decode_bit_masks, decode_o_for_ld_st_pair_offset, decode_operand_for_ld_st_reg_imm,
    decode_reg_extend, decode_shift, RegExtend, ShiftType,
};
use aarch64_ir::instruction::SizeImm12RnRt;

#[test]
fn extract_bits_basic() {
    assert_eq!(extract_bits32(0..4, 0xABCD), 0xD);
    assert_eq!(extract_bits32(4..12, 0xABCD), 0xBC);
    assert_eq!(extract_bits32(28..32, 0xF000_0000), 0xF);
    assert_eq!(extract_bits32(0..32, 0x1234_5678), 0x1234_5678);
    assert_eq!(extract_bits32(5..21, 0xD282_4680), 0x1234);
}

#[test]
fn sign_extend_values() {
    assert_eq!(sign_extend(16, 9), 16);
    assert_eq!(sign_extend(0x1FF, 9), -1);
    assert_eq!(sign_extend(0x100, 9), -256);
    assert_eq!(sign_extend(-1, 64), -1);
    assert_eq!(sign_extend(2, 28), 2);
    // Idempotence on a concrete value.
    assert_eq!(sign_extend(sign_extend(0x155, 9), 9), sign_extend(0x155, 9));
}

#[test]
fn replicate_tiles_the_pattern() {
    assert_eq!(replicate(0xA, 4, 16), 0xAAAA);
    assert_eq!(replicate(0x1, 2, 8), 0x55);
    assert_eq!(replicate(0xFF, 8, 64), 0xFFFF_FFFF_FFFF_FFFF);
    // Chunk equal to the total width is the identity.
    assert_eq!(replicate(0x2B, 8, 8), 0x2B);
}

#[test]
fn pattern_parser_accepts_the_alphabet_only() {
    let m = Match::new("1xxx", EncodingRow::Nop).unwrap();
    assert_eq!(m.pattern, 0b1000);
    assert_eq!(m.mask, 0b1000);
    let m = Match::new("11_00", EncodingRow::Nop).unwrap();
    assert_eq!(m.pattern, 0b1100);
    assert_eq!(m.mask, 0b1111);
    assert!(Match::new("1 0 x", EncodingRow::Nop).is_some());
    assert!(Match::new("12x", EncodingRow::Nop).is_none());
    assert!(Match::new("abc", EncodingRow::Nop).is_none());
}

#[test]
fn matcher_dispatches_first_registered_match() {
    // Registered specific-first: 0b1100 reaches its own row.
    let mut m: BitPatternMatcher<EncodingRow> = BitPatternMatcher::new();
    assert!(m.bind("1100", EncodingRow::Yield));
    assert!(m.bind("1xxx", EncodingRow::Nop));
    assert_eq!(m.handle(0b1100), Some(AArch64Instr::Yield));
    assert_eq!(m.handle(0b1000), Some(AArch64Instr::Nop));
    assert_eq!(m.handle(0b0100), None);

    // Registered general-first: the wide row shadows the specific one.
    let mut m: BitPatternMatcher<EncodingRow> = BitPatternMatcher::new();
    assert!(m.bind("1xxx", EncodingRow::Nop));
    assert!(m.bind("1100", EncodingRow::Yield));
    assert_eq!(m.handle(0b1100), Some(AArch64Instr::Nop));
}

#[test]
fn matcher_rejects_bad_pattern_and_registers_nothing() {
    let mut m: BitPatternMatcher<EncodingRow> = BitPatternMatcher::new();
    assert!(!m.bind("1q00", EncodingRow::Nop));
    assert_eq!(m.handle(0b1000), None);
}

#[test]
fn decode_bit_masks_reference_values() {
    // 64-bit element, eight low ones, no rotation: both masks are 0xFF.
    assert_eq!(decode_bit_masks(1, 7, 0, true, 64), Some((0xFF, 0xFF)));
    // One set bit rotated right by one lands at the top.
    assert_eq!(
        decode_bit_masks(1, 0, 1, false, 64),
        Some((0x8000_0000_0000_0000, 0xFFFF_FFFF_FFFF_FFFF))
    );
    // 32-bit datasize with a 2-bit element: 0b01 tiled over 32 bits.
    assert_eq!(
        decode_bit_masks(0, 0b111100, 0, true, 32),
        Some((0x5555_5555, 0x5555_5555))
    );
}

#[test]
fn decode_bit_masks_rejects_reserved_inputs() {
    // No element length at all.
    assert_eq!(decode_bit_masks(0, 0b111111, 0, true, 64), None);
    // Immediate form with an all-ones element is reserved.
    assert_eq!(decode_bit_masks(1, 0b111111, 0, true, 64), None);
    // A 64-bit element does not fit a 32-bit datasize.
    assert_eq!(decode_bit_masks(1, 7, 0, true, 32), None);
}

#[test]
fn shift_and_extend_decoders() {
    assert_eq!(decode_shift(0), ShiftType::LSL);
    assert_eq!(decode_shift(1), ShiftType::LSR);
    assert_eq!(decode_shift(2), ShiftType::ASR);
    assert_eq!(decode_shift(3), ShiftType::ROR);
    assert_eq!(decode_reg_extend(0), RegExtend::UXTB);
    assert_eq!(decode_reg_extend(3), RegExtend::UXTX);
    assert_eq!(decode_reg_extend(6), RegExtend::SXTW);
    assert_eq!(decode_reg_extend(7), RegExtend::SXTX);
}

#[test]
fn load_store_operand_decode() {
    // Unsigned offset: scaled by the size.
    let op = SizeImm12RnRt { size: 3, opc: 0b0101, imm12: 2, rn: 1, rt: 0 };
    assert_eq!(decode_operand_for_ld_st_reg_imm(op), (false, false, 3, 16));
    // Pre-indexed: writeback, not post, 9-bit signed offset.
    let op = SizeImm12RnRt { size: 3, opc: 0b0001, imm12: 0x43, rn: 31, rt: 0 };
    assert_eq!(decode_operand_for_ld_st_reg_imm(op), (true, false, 3, 16));
    // Post-indexed with a negative offset.
    let op = SizeImm12RnRt { size: 3, opc: 0b0001, imm12: (0x1FF << 2) | 0b01, rn: 2, rt: 0 };
    assert_eq!(decode_operand_for_ld_st_reg_imm(op), (true, true, 3, -1));
    // Pair index modes.
    assert_eq!(decode_o_for_ld_st_pair_offset(1), (true, true));
    assert_eq!(decode_o_for_ld_st_pair_offset(2), (false, false));
    assert_eq!(decode_o_for_ld_st_pair_offset(3), (true, false));
}
