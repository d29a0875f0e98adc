//! Error-path tests: each refusal of the lowerer, with the input that
//! produces it.

use aarch64_ir::compiler::AArch64Compiler;
use aarch64_ir::decode::{encode, AArch64Decoder};
use aarch64_ir::error::TranslateError;
use aarch64_ir::instruction::{
    AArch64Instr, AddSubtractExtReg, LogicalImm, SysRegMov,
};
use aarch64_ir::interrupt::Interrupt;
use aarch64_ir::ir::RegId;

fn mk_compiler() -> AArch64Compiler {
    let mut gpr = [RegId(0); 31];
    let mut fpr = [RegId(0); 31];
    let mut i = 0u8;
    while i < 31 {
        gpr[i as usize] = RegId(i);
        fpr[i as usize] = RegId(31 + i);
        i += 1;
    }
    AArch64Compiler::new(gpr, fpr, RegId(62))
}

#[test]
fn hint_opcodes_without_lowering_are_not_implemented() {
    let c = mk_compiler();
    assert_eq!(
        c.compile(AArch64Instr::Yield),
        Err(TranslateError::NotImplemented(AArch64Instr::Yield))
    );
    assert_eq!(
        c.compile(AArch64Instr::Sevl),
        Err(TranslateError::NotImplemented(AArch64Instr::Sevl))
    );
    // NOP and WFI do have a lowering.
    assert!(c.compile(AArch64Instr::Nop).is_ok());
    assert!(c.compile(AArch64Instr::Wfi).is_ok());
}

#[test]
fn mrs_of_an_unemulated_register_is_not_implemented() {
    let c = mk_compiler();
    // MRS of something other than TPIDR_EL0.
    let op = SysRegMov { o0: 1, op1: 3, crn: 4, crm: 4, op2: 0, rt: 0 };
    assert_eq!(
        c.compile(AArch64Instr::Mrs(op)),
        Err(TranslateError::NotImplemented(AArch64Instr::Mrs(op)))
    );
    // The emulated thread-pointer read lowers.
    let tpidr = SysRegMov { o0: 1, op1: 3, crn: 13, crm: 0, op2: 2, rt: 0 };
    assert!(c.compile(AArch64Instr::Mrs(tpidr)).is_ok());
}

#[test]
fn reserved_bitmask_immediate_is_an_undefined_encoding() {
    let c = mk_compiler();
    let op = LogicalImm { n: 0, immr: 0, imms: 0b111111, rn: 1, rd: 0 };
    let instr = AArch64Instr::AndsImm64(op);
    assert_eq!(
        c.compile(instr),
        Err(TranslateError::UndefinedEncoding(encode(&instr)))
    );
}

#[test]
fn extended_register_shift_above_four_is_undefined() {
    let c = mk_compiler();
    let op = AddSubtractExtReg { rm: 1, option: 3, imm3: 5, rn: 2, rd: 0 };
    let instr = AArch64Instr::AddExtReg64(op);
    assert_eq!(
        c.compile(instr),
        Err(TranslateError::UndefinedEncoding(encode(&instr)))
    );
    let ok = AddSubtractExtReg { rm: 1, option: 3, imm3: 4, rn: 2, rd: 0 };
    assert!(c.compile(AArch64Instr::AddExtReg64(ok)).is_ok());
}

#[test]
fn decode_then_compile_full_pipeline_error() {
    let decoder = AArch64Decoder::new();
    let c = mk_compiler();
    // YIELD decodes but the lowerer refuses it.
    let instr = decoder.decode(0xD503_203F).unwrap();
    assert_eq!(
        c.compile(instr),
        Err(TranslateError::NotImplemented(AArch64Instr::Yield))
    );
}

#[test]
fn interrupt_variants_carry_their_payloads() {
    let i = Interrupt::SystemCall(93);
    assert_eq!(i, Interrupt::SystemCall(93));
    assert_ne!(i, Interrupt::Exit(93));
    assert_ne!(Interrupt::IntegerOverflow, Interrupt::NeedRecompile);
    match Interrupt::DebugBreakpoint(7) {
        Interrupt::DebugBreakpoint(n) => assert_eq!(n, 7),
        _ => unreachable!(),
    }
}
