//! Decoder-level tests: first-match dispatch over the real table,
//! re-encoding of decoded words, and undefined encodings.

use aarch64_ir::decode::{encode, AArch64Decoder};
use aarch64_ir::error::TranslateError;
use aarch64_ir::instruction::AArch64Instr;

#[test]
fn undefined_word_is_reported_with_the_word() {
    let decoder = AArch64Decoder::new();
    assert_eq!(
        decoder.decode(0x0000_0000),
        Err(TranslateError::UndefinedEncoding(0))
    );
    assert_eq!(
        decoder.decode(0xFFFF_FFFF),
        Err(TranslateError::UndefinedEncoding(0xFFFF_FFFF))
    );
}

#[test]
fn reencoding_decoded_words_is_the_identity() {
    let decoder = AArch64Decoder::new();
    let words = [
        0xD282_4680u32, // MOVZ X0, #0x1234
        0x9100_0420,    // ADD X0, X1, #1
        0x1400_0002,    // B #+8
        0x5400_0020,    // B.EQ #+4
        0xD400_0001,    // SVC #0
        0xF841_0FE0,    // LDR X0, [SP, #16]!
        0xD503_201F,    // NOP
        0xD503_207F,    // WFI
        0xD65F_03C0,    // RET
        0x9400_0004,    // BL #+16
        0xA901_0BE1,    // STP X1, X2, [SP, #16]
        0xF940_0821,    // LDR X1, [X1, #16] (unsigned offset)
        0xB400_0041,    // CBZ X1, #+8
        0x35FF_FFE1,    // CBNZ W1, #-4
        0x9000_0000,    // ADRP X0, #0
        0x1000_0001,    // ADR X1, #0
        0xD280_001E,    // MOVZ X30, #0
        0xAA01_03E2,    // MOV X2, X1 (ORR shifted)
        0xEB02_003F,    // CMP X1, X2 (SUBS shifted, rd=31)
        0xD344_FC20,    // LSR X0, X1, #4 (UBFM)
        0x9340_FC20,    // ASR X0, X1, #0..63 (SBFM)
        0xD61F_0020,    // BR X1
        0xD63F_0020,    // BLR X1
        0x7A41_0802,    // CCMP W0, #1, #2, EQ
        0x1A82_1020,    // CSEL W0, W1, W2, NE
        0xD440_0000,    // HLT #0
        0xD420_0000,    // BRK #0
        0xD53B_D040,    // MRS X0, TPIDR_EL0
    ];
    for &w in words.iter() {
        let instr = decoder
            .decode(w)
            .unwrap_or_else(|e| panic!("word {w:#010X} did not decode: {e:?}"));
        assert_eq!(encode(&instr), w, "word {w:#010X} decoded to {instr:?}");
    }
}

#[test]
fn hint_words_decode_to_their_opcodes() {
    let decoder = AArch64Decoder::new();
    assert_eq!(decoder.decode(0xD503_201F), Ok(AArch64Instr::Nop));
    assert_eq!(decoder.decode(0xD503_203F), Ok(AArch64Instr::Yield));
    assert_eq!(decoder.decode(0xD503_205F), Ok(AArch64Instr::Wfe));
    assert_eq!(decoder.decode(0xD503_207F), Ok(AArch64Instr::Wfi));
    assert_eq!(decoder.decode(0xD503_209F), Ok(AArch64Instr::Sev));
    assert_eq!(decoder.decode(0xD503_20BF), Ok(AArch64Instr::Sevl));
}

#[test]
fn load_forms_share_one_opcode() {
    let decoder = AArch64Decoder::new();
    // Unsigned-offset and pre-indexed forms both decode to LdrImm64.
    let unsigned = decoder.decode(0xF940_0821).unwrap();
    let pre = decoder.decode(0xF841_0FE0).unwrap();
    assert!(matches!(unsigned, AArch64Instr::LdrImm64(_)));
    assert!(matches!(pre, AArch64Instr::LdrImm64(_)));
}
