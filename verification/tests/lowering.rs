//! Lowering tests for the remaining opcode families: move aliases,
//! bitfield moves, conditional selects and compares, page addressing, and
//! register branches.

use aarch64_ir::compiler::AArch64Compiler;
use aarch64_ir::decode::AArch64Decoder;
use aarch64_ir::instruction::AArch64Instr;
use aarch64_ir::ir::{BlockDestination, Ir, Operand, RegId, Type};
use aarch64_ir::lowering::condition_holds;

fn mk_compiler() -> AArch64Compiler {
    let mut gpr = [RegId(0); 31];
    let mut fpr = [RegId(0); 31];
    let mut i = 0u8;
    while i < 31 {
        gpr[i as usize] = RegId(i);
        fpr[i as usize] = RegId(31 + i);
        i += 1;
    }
    AArch64Compiler::new(gpr, fpr, RegId(62))
}

#[test]
fn mov_alias_of_orr_shifted_register() {
    // MOV X2, X1 == ORR X2, XZR, X1
    let decoder = AArch64Decoder::new();
    let instr = decoder.decode(0xAA01_03E2).unwrap();
    let block = mk_compiler().compile(instr).unwrap();
    assert_eq!(block.len(), 1);
    assert_eq!(
        *block.entry(0),
        (
            Ir::Value(Operand::Register(Type::U64, RegId(1))),
            BlockDestination::Gpr(RegId(2)),
        )
    );
}

#[test]
fn lsr_alias_of_ubfm() {
    // LSR X0, X1, #4 == UBFM X0, X1, #4, #63
    let decoder = AArch64Decoder::new();
    let instr = decoder.decode(0xD344_FC20).unwrap();
    let block = mk_compiler().compile(instr).unwrap();
    assert_eq!(block.len(), 1);
    // wmask = ror(ones(64), 4) = all ones; tmask = ones(60).
    let src = Operand::Register(Type::U64, RegId(1));
    let rot = Operand::Immediate(Type::U8, 4);
    let bot = Ir::And(
        Type::U64,
        Operand::ir(Ir::Rotr(Type::U64, src, rot)),
        Operand::Immediate(Type::U64, 0xFFFF_FFFF_FFFF_FFFF),
    );
    let expected = Ir::And(
        Type::U64,
        Operand::ir(bot),
        Operand::Immediate(Type::U64, 0x0FFF_FFFF_FFFF_FFFF),
    );
    assert_eq!(*block.entry(0), (expected, BlockDestination::Gpr(RegId(0))));
}

#[test]
fn cbnz_branches_on_the_false_arm() {
    let decoder = AArch64Decoder::new();
    // CBNZ W1, #-4
    let instr = decoder.decode(0x35FF_FFE1).unwrap();
    let block = mk_compiler().compile(instr).unwrap();
    assert_eq!(block.len(), 1);
    let is_zero = Ir::CmpEq(
        Type::U32,
        Operand::Register(Type::U32, RegId(1)),
        Operand::Immediate(Type::U32, 0),
    );
    let expected = Ir::If(
        Type::U64,
        Operand::ir(is_zero),
        Operand::ir(Ir::Add(Type::U64, Operand::Ip, Operand::Immediate(Type::I64, 4))),
        Operand::ir(Ir::Add(Type::U64, Operand::Ip, Operand::Immediate(Type::I64, -4i64 as u64))),
    );
    assert_eq!(*block.entry(0), (expected, BlockDestination::Ip));
}

#[test]
fn csel32_selects_between_registers() {
    let decoder = AArch64Decoder::new();
    // CSEL W0, W1, W2, NE
    let instr = decoder.decode(0x1A82_1020).unwrap();
    let block = mk_compiler().compile(instr).unwrap();
    assert_eq!(block.len(), 1);
    let expected = Ir::If(
        Type::U32,
        Operand::ir(condition_holds(1)),
        Operand::Register(Type::U32, RegId(1)),
        Operand::Register(Type::U32, RegId(2)),
    );
    assert_eq!(*block.entry(0), (expected, BlockDestination::Gpr(RegId(0))));
}

#[test]
fn adrp_masks_the_page_bits() {
    let decoder = AArch64Decoder::new();
    // ADRP X0, #page+1  (immlo:immhi = 1)
    let instr = decoder.decode(0xB000_0000).unwrap();
    match instr {
        AArch64Instr::Adrp(op) => {
            assert_eq!(op.immlo, 1);
            assert_eq!(op.immhi, 0);
        }
        other => panic!("decoded {other:?}"),
    }
    let block = mk_compiler().compile(instr).unwrap();
    assert_eq!(block.len(), 1);
    let expected = Ir::Add(
        Type::U64,
        Operand::ir(Ir::And(
            Type::U64,
            Operand::Ip,
            Operand::Immediate(Type::U64, 0xFFFF_FFFF_FFFF_F000),
        )),
        Operand::Immediate(Type::I64, 0x1000),
    );
    assert_eq!(*block.entry(0), (expected, BlockDestination::Gpr(RegId(0))));
}

#[test]
fn blr_writes_link_register_then_target() {
    let decoder = AArch64Decoder::new();
    let instr = decoder.decode(0xD63F_0020).unwrap();
    let block = mk_compiler().compile(instr).unwrap();
    assert_eq!(block.len(), 2);
    assert_eq!(
        *block.entry(0),
        (
            Ir::Add(Type::U64, Operand::Ip, Operand::Immediate(Type::U64, 4)),
            BlockDestination::Gpr(RegId(30)),
        )
    );
    assert_eq!(
        *block.entry(1),
        (
            Ir::Value(Operand::Register(Type::U64, RegId(1))),
            BlockDestination::Ip,
        )
    );
}

#[test]
fn mrs_tpidr_reads_the_placeholder_thread_pointer() {
    let decoder = AArch64Decoder::new();
    let instr = decoder.decode(0xD53B_D040).unwrap();
    let block = mk_compiler().compile(instr).unwrap();
    assert_eq!(block.len(), 1);
    assert_eq!(
        *block.entry(0),
        (
            Ir::Value(Operand::Immediate(Type::U64, 0x0000_0000_004D_FD58)),
            BlockDestination::Gpr(RegId(0)),
        )
    );
}

#[test]
fn ccmp_immediate_targets_the_flags() {
    let decoder = AArch64Decoder::new();
    // CCMP W0, #1, #2, EQ
    let instr = decoder.decode(0x7A41_0802).unwrap();
    let block = mk_compiler().compile(instr).unwrap();
    assert_eq!(block.len(), 1);
    assert_eq!(block.entry(0).1, BlockDestination::Flags);
    match &block.entry(0).0 {
        Ir::If(Type::Void, _, _, _) => {}
        other => panic!("unexpected IR {other:?}"),
    }
}
