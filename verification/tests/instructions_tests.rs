//! Format-view tests: bit-field extraction and immediate reassembly on
//! concrete words.

use rv32_decoder::decoded_inst::Instruction;
use rv32_decoder::decoder::try_decode;
use rv32_decoder::instructions::{BType, CRType, IType, JType, RType, SType, UType};

#[test]
fn crtype() {
    let inst = CRType::new(0x8602 /* c.jr x12 */);
    assert_eq!(inst.opcode(), 2);
    assert_eq!(inst.funct4(), 8);
    assert_eq!(inst.rs1(), 12);
    assert_eq!(inst.rs2(), 0);
}

#[test]
fn atomic_check() {
    let inst = RType::new(0xCF4A7AF /* amoswap.w x15, x15, (x9) */);
    assert_eq!(inst.rd(), 15);
    assert_eq!(inst.rs1(), 9);
    assert_eq!(inst.rs2(), 15);
}

#[test]
fn csr_check() {
    let inst = IType::new(0xf14025f3 /* csrrs x11, mhartid, x0 */);
    assert_eq!(inst.rd(), 11);
    assert_eq!(inst.rs1(), 0);
    assert_eq!(inst.uimm(), 3860);
    let inst = IType::new(0x30101773 /* csrrw x14, misa, x0 */);
    assert_eq!(inst.rd(), 14);
    assert_eq!(inst.rs1(), 0);
    assert_eq!(inst.uimm(), 769);
    let inst = IType::new(0xc0006073 /* csrrsi */);
    assert_eq!(inst.rd(), 0);
    assert_eq!(inst.rs1(), 0);
    assert_eq!(inst.uimm(), 0b1100_0000_0000);
}

#[test]
fn imm_check() {
    let inst = IType::new(0x06468613 /* addi x12 x13 100 */);
    assert_eq!(inst.rd(), 12);
    assert_eq!(inst.rs1(), 13);
    assert_eq!(inst.imm(), 100);
}

#[test]
fn instructions() {
    let inst = IType::new(0x00411573 /* csrrw x10 x2 4 */);
    assert_eq!(inst.rd(), 10);
    assert_eq!(inst.rs1(), 2);
    assert_eq!(inst.imm(), 4);
    let inst = IType::new(0x00c12603 /* lw x12, 12(sp) */);
    assert_eq!(inst.rd(), 12);
    assert_eq!(inst.rs1(), 2);
    assert_eq!(inst.imm(), 12);
    let inst = IType::new(0x00c080e7 /* jalr x1, 12(ra) */);
    assert_eq!(inst.rd(), 1);
    assert_eq!(inst.rs1(), 1);
    assert_eq!(inst.imm(), 12);
    let inst = IType::new(0x379793 /* slli a5, a5, 3 */);
    assert_eq!(inst.rd(), 15);
    assert_eq!(inst.rs1(), 15);
    assert_eq!(inst.imm(), 3);
    let inst = try_decode(0x379793 /* slli a5, a5, 3 */).unwrap();
    assert!(matches!(
        inst,
        Instruction::Slli {
            rd: 15,
            rs1: 15,
            imm: 3
        }
    ));
    let inst = IType::new(0x00197793 /* andi a5, s2, 1 */);
    assert_eq!(inst.rd(), 15);
    assert_eq!(inst.rs1(), 18);
    assert_eq!(inst.imm(), 1);
}

#[test]
fn instructions_imm_check() {
    // S-type
    let inst = SType::new(0x00112f23 /* sw ra, 30(sp) */);
    assert_eq!(inst.rs1(), 2);
    assert_eq!(inst.rs2(), 1);
    assert_eq!(inst.imm(), 30);
    // U-type: the upper immediate stays in place in bits 31:12.
    let inst = UType::new(0x00004537 /* lui x10, 4 */);
    assert_eq!(inst.rd(), 10);
    assert_eq!(inst.imm(), 0x4000);
    // B-type
    let inst = BType::new(0x50A60463 /* beq x12 x10 1288 */);
    assert_eq!(inst.rs1(), 12);
    assert_eq!(inst.rs2(), 10);
    assert_eq!(inst.imm(), 1288);
    let inst = BType::new(0x00409663 /* bne x1 x4 12 */);
    assert_eq!(inst.rs1(), 1);
    assert_eq!(inst.rs2(), 4);
    assert_eq!(inst.imm(), 12);
    let inst = BType::new(0xfe078ce3 /* beq x15, x0, -8 */);
    assert_eq!(inst.rs1(), 15);
    assert_eq!(inst.rs2(), 0);
    assert_eq!(inst.imm() as i32, -8);
    let inst = BType::new(0xfe20dae3 /* bge x1 x2 -12 */);
    assert_eq!(inst.rs1(), 1);
    assert_eq!(inst.rs2(), 2);
    assert_eq!(inst.imm() as i32, -12);
    // J-type
    let inst = JType::new(0x0100006f /* jal x0 16 */);
    assert_eq!(inst.rd(), 0);
    assert_eq!(inst.imm(), 16);
    let inst = JType::new(0x84000EF /* jal ra 132 */);
    assert_eq!(inst.rd(), 1);
    assert_eq!(inst.imm(), 132);
    let inst = JType::new(0xfb9ff0ef /* jal ra, -72 */);
    assert_eq!(inst.rd(), 1);
    assert_eq!(inst.imm() as i32, -72);
}
