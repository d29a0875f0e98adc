//! End-to-end scenarios: literal instruction words through the decoder and
//! the lowerer, checked against the exact expected IR blocks.

use aarch64_ir::compiler::AArch64Compiler;
use aarch64_ir::decode::AArch64Decoder;
use aarch64_ir::instruction::{AArch64Instr, HwImm16Rd, Imm19Cond, Imm26, ShImm12RnRd, SizeImm12RnRt};
use aarch64_ir::ir::{BlockDestination, Ir, Operand, RegId, Type};
use aarch64_ir::lowering::{condition_holds, gen_ip_relative};

fn mk_compiler() -> AArch64Compiler {
    let mut gpr = [RegId(0); 31];
    let mut fpr = [RegId(0); 31];
    let mut i = 0u8;
    while i < 31 {
        gpr[i as usize] = RegId(i);
        fpr[i as usize] = RegId(31 + i);
        i += 1;
    }
    AArch64Compiler::new(gpr, fpr, RegId(62))
}

#[test]
fn movz_x0_0x1234() {
    let decoder = AArch64Decoder::new();
    let instr = decoder.decode(0xD282_4680).unwrap();
    assert_eq!(
        instr,
        AArch64Instr::MovzVar64(HwImm16Rd { hw: 0, imm16: 0x1234, rd: 0 })
    );
    let compiler = mk_compiler();
    let block = compiler.compile(instr).unwrap();
    assert_eq!(block.len(), 1);
    assert_eq!(block.instruction_size(), 4);
    assert_eq!(
        *block.entry(0),
        (
            Ir::Value(Operand::Immediate(Type::U64, 0x1234)),
            BlockDestination::Gpr(RegId(0)),
        )
    );
}

#[test]
fn add_x0_x1_imm1() {
    let decoder = AArch64Decoder::new();
    let instr = decoder.decode(0x9100_0420).unwrap();
    assert_eq!(
        instr,
        AArch64Instr::AddImm64(ShImm12RnRd { sh: 0, imm12: 1, rn: 1, rd: 0 })
    );
    let block = mk_compiler().compile(instr).unwrap();
    assert_eq!(block.len(), 1);
    assert_eq!(
        *block.entry(0),
        (
            Ir::Add(
                Type::U64,
                Operand::Register(Type::U64, RegId(1)),
                Operand::Immediate(Type::U64, 1),
            ),
            BlockDestination::Gpr(RegId(0)),
        )
    );
}

#[test]
fn b_plus_8() {
    let decoder = AArch64Decoder::new();
    let instr = decoder.decode(0x1400_0002).unwrap();
    assert_eq!(instr, AArch64Instr::BImm(Imm26 { imm26: 2 }));
    let block = mk_compiler().compile(instr).unwrap();
    assert_eq!(block.len(), 1);
    assert_eq!(
        *block.entry(0),
        (
            Ir::Add(Type::U64, Operand::Ip, Operand::Immediate(Type::I64, 8)),
            BlockDestination::Ip,
        )
    );
}

#[test]
fn b_eq_plus_4() {
    let decoder = AArch64Decoder::new();
    let instr = decoder.decode(0x5400_0020).unwrap();
    assert_eq!(instr, AArch64Instr::BCond(Imm19Cond { imm19: 1, cond: 0 }));
    let block = mk_compiler().compile(instr).unwrap();
    assert_eq!(block.len(), 1);
    let expected = Ir::If(
        Type::U64,
        Operand::ir(condition_holds(0)),
        Operand::ir(gen_ip_relative(4)),
        Operand::ir(gen_ip_relative(4)),
    );
    assert_eq!(*block.entry(0), (expected, BlockDestination::Ip));
    // A branch block always ends with the program-counter entry.
    assert_eq!(block.entry(block.len() - 1).1, BlockDestination::Ip);
}

#[test]
fn svc_0() {
    let decoder = AArch64Decoder::new();
    let instr = decoder.decode(0xD400_0001).unwrap();
    match instr {
        AArch64Instr::Svc(op) => assert_eq!(op.imm16, 0),
        other => panic!("decoded {other:?}"),
    }
    let block = mk_compiler().compile(instr).unwrap();
    assert_eq!(block.len(), 1);
    assert_eq!(
        *block.entry(0),
        (
            Ir::Value(Operand::Immediate(Type::U16, 0)),
            BlockDestination::SystemCall,
        )
    );
}

#[test]
fn ldr_x0_sp_16_pre_index() {
    let decoder = AArch64Decoder::new();
    let instr = decoder.decode(0xF841_0FE0).unwrap();
    assert_eq!(
        instr,
        AArch64Instr::LdrImm64(SizeImm12RnRt { size: 3, opc: 1, imm12: 0x43, rn: 31, rt: 0 })
    );
    let block = mk_compiler().compile(instr).unwrap();
    assert_eq!(block.len(), 2);
    let stack = RegId(62);
    assert_eq!(
        *block.entry(0),
        (
            Ir::Load(
                Type::U64,
                Operand::ir(Ir::Add(
                    Type::U64,
                    Operand::Register(Type::U64, stack),
                    Operand::Immediate(Type::U64, 16),
                )),
            ),
            BlockDestination::Gpr(RegId(0)),
        )
    );
    assert_eq!(
        *block.entry(1),
        (
            Ir::Add(
                Type::U64,
                Operand::Register(Type::U64, stack),
                Operand::Immediate(Type::I64, 16),
            ),
            BlockDestination::Gpr(stack),
        )
    );
}

#[test]
fn nop_lowers_to_empty_effect() {
    let decoder = AArch64Decoder::new();
    let instr = decoder.decode(0xD503_201F).unwrap();
    assert_eq!(instr, AArch64Instr::Nop);
    let block = mk_compiler().compile(instr).unwrap();
    assert_eq!(block.len(), 1);
    assert_eq!(*block.entry(0), (Ir::Nop, BlockDestination::Discard));
}

#[test]
fn bl_writes_link_register_then_ip() {
    let decoder = AArch64Decoder::new();
    // BL #+16
    let instr = decoder.decode(0x9400_0004).unwrap();
    let block = mk_compiler().compile(instr).unwrap();
    assert_eq!(block.len(), 2);
    assert_eq!(
        *block.entry(0),
        (
            Ir::Add(Type::U64, Operand::Ip, Operand::Immediate(Type::U64, 4)),
            BlockDestination::Gpr(RegId(30)),
        )
    );
    assert_eq!(
        *block.entry(1),
        (
            Ir::Add(Type::U64, Operand::Ip, Operand::Immediate(Type::I64, 16)),
            BlockDestination::Ip,
        )
    );
}

#[test]
fn cmp_alias_discards_subs_result() {
    let decoder = AArch64Decoder::new();
    // SUBS XZR, X2, #7  ==  CMP X2, #7
    let word = 0xF100_1C5F;
    let instr = decoder.decode(word).unwrap();
    match instr {
        AArch64Instr::SubsImm64(op) => {
            assert_eq!(op.imm12, 7);
            assert_eq!(op.rn, 2);
            assert_eq!(op.rd, 31);
        }
        other => panic!("decoded {other:?}"),
    }
    let block = mk_compiler().compile(instr).unwrap();
    assert_eq!(block.len(), 1);
    assert_eq!(
        *block.entry(0),
        (
            Ir::Subc(
                Type::U64,
                Operand::Register(Type::U64, RegId(2)),
                Operand::Immediate(Type::U64, 7),
            ),
            BlockDestination::Discard,
        )
    );
}

#[test]
fn ldr_writeback_suppressed_when_base_equals_destination() {
    let decoder = AArch64Decoder::new();
    // LDR X1, [X1], #8  (post-index, rn == rt != 31)
    let word = 0xF840_8421;
    let instr = decoder.decode(word).unwrap();
    match instr {
        AArch64Instr::LdrImm64(op) => {
            assert_eq!(op.rn, 1);
            assert_eq!(op.rt, 1);
        }
        other => panic!("decoded {other:?}"),
    }
    let block = mk_compiler().compile(instr).unwrap();
    // The writeback entry is suppressed: only the load remains.
    assert_eq!(block.len(), 1);
}

#[test]
fn str_writeback_suppressed_when_base_equals_source() {
    let decoder = AArch64Decoder::new();
    // STR X1, [X1], #8  (post-index, rn == rt != 31)
    let word = 0xF800_8421;
    let instr = decoder.decode(word).unwrap();
    match instr {
        AArch64Instr::StrImm64(op) => {
            assert_eq!(op.rn, 1);
            assert_eq!(op.rt, 1);
        }
        other => panic!("decoded {other:?}"),
    }
    let block = mk_compiler().compile(instr).unwrap();
    // The base-update entry is suppressed: only the store remains.
    assert_eq!(block.len(), 1);
    assert_eq!(
        *block.entry(0),
        (
            Ir::Value(Operand::Register(Type::U64, RegId(1))),
            BlockDestination::MemoryRel(RegId(1), 0),
        )
    );
}

#[test]
fn str_writeback_kept_from_the_stack_register() {
    let decoder = AArch64Decoder::new();
    // STR X1, [SP, #16]!  (pre-index, rn = 31)
    let word = 0xF801_0FE1;
    let instr = decoder.decode(word).unwrap();
    let block = mk_compiler().compile(instr).unwrap();
    assert_eq!(block.len(), 2);
    let stack = RegId(62);
    assert_eq!(
        *block.entry(1),
        (
            Ir::Add(
                Type::U64,
                Operand::Register(Type::U64, stack),
                Operand::Immediate(Type::I64, 16),
            ),
            BlockDestination::Gpr(stack),
        )
    );
}

#[test]
fn stp_x1_x2_sp_16_offsets() {
    let decoder = AArch64Decoder::new();
    // STP X1, X2, [SP, #16]  (signed offset form, imm7 = 2)
    let word = 0xA901_0BE1;
    let instr = decoder.decode(word).unwrap();
    let block = mk_compiler().compile(instr).unwrap();
    assert_eq!(block.len(), 2);
    let stack = RegId(62);
    assert_eq!(
        *block.entry(0),
        (
            Ir::Value(Operand::Register(Type::U64, RegId(1))),
            BlockDestination::MemoryRel(stack, 16),
        )
    );
    assert_eq!(
        *block.entry(1),
        (
            Ir::Value(Operand::Register(Type::U64, RegId(2))),
            BlockDestination::MemoryRel(stack, 24),
        )
    );
}
