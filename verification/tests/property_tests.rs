//! Scenario tests for the documented behaviour: totality, field ranges,
//! sign extension, round-trip disassembly, overlap disambiguation, the CSR
//! shorthand, the compressed short-circuit and idempotence.

use rv32_decoder::bit_ops::zero_extend;
use rv32_decoder::cache::DecodeCache;
use rv32_decoder::decoded_inst::Instruction;
use rv32_decoder::decoder::try_decode;
use rv32_decoder::error::DecodeError;
use rv32_decoder::numfmt::{u32_dec, u32_hex_lit, u32_signed_dec};
use rv32_decoder::render::CsrNameTable;

fn csr_table() -> CsrNameTable {
    let mut t = CsrNameTable::new();
    t.add(0xF14, String::from("mhartid"));
    t.add(0x301, String::from("misa"));
    t.add(0x305, String::from("mtvec"));
    t
}

#[test]
fn totality_extreme_words() {
    // All-zero and all-one patterns, and one word per low-bit class, decode
    // to either Ok or a typed error without panicking.
    assert_eq!(
        try_decode(0x00000000),
        Err(DecodeError::UnsupportedCompressed { inst: 0 })
    );
    assert_eq!(
        try_decode(0xffffffff),
        Err(DecodeError::UnknownFormat { inst: 0xffffffff })
    );
    for w in [0x1u32, 0x2, 0x7, 0x13, 0xdeadbeef, 0x80000003] {
        let _ = try_decode(w);
    }
}

#[test]
fn field_ranges_on_ok_results() {
    for w in [
        0xCF4A7AF,  /* amoswap.w */
        0x06468613, /* addi */
        0xf14025f3, /* csrrs */
        0x0af5f7c3, /* fmadd.d */
        0xfe078ce3, /* beq */
    ] {
        match try_decode(w).unwrap() {
            Instruction::AmoswapW { rd, rs1, rs2, .. } => {
                assert!(rd < 32 && rs1 < 32 && rs2 < 32);
            }
            Instruction::Addi { rd, rs1, .. } => {
                assert!(rd < 32 && rs1 < 32);
            }
            Instruction::CsrRs { rd, rs1, imm } => {
                assert!(rd < 32 && rs1 < 32 && imm < 4096);
            }
            Instruction::FmaddD { rd, rs1, rs2, rs3 } => {
                assert!(rd < 32 && rs1 < 32 && rs2 < 32 && rs3 < 32);
            }
            Instruction::Beq { rs1, rs2, .. } => {
                assert!(rs1 < 32 && rs2 < 32);
            }
            other => panic!("unexpected decode {other:?}"),
        }
    }
}

#[test]
fn sign_extension() {
    assert_eq!(
        try_decode(0x06468613),
        Ok(Instruction::Addi {
            rd: 12,
            rs1: 13,
            imm: 100
        })
    );
    match try_decode(0xfe078ce3).unwrap() {
        Instruction::Beq { rs1, rs2, imm } => {
            assert_eq!(rs1, 15);
            assert_eq!(rs2, 0);
            assert_eq!(imm as i32, -8);
        }
        other => panic!("unexpected decode {other:?}"),
    }
    // A negative S-type offset: sw a0, -4(sp).
    match try_decode(0xfea12e23).unwrap() {
        Instruction::Sw { rs1, rs2, imm } => {
            assert_eq!(rs1, 2);
            assert_eq!(rs2, 10);
            assert_eq!(imm as i32, -4);
        }
        other => panic!("unexpected decode {other:?}"),
    }
}

#[test]
fn round_trip_disassembly() {
    let inst = try_decode(0xCF4A7AF).unwrap();
    assert_eq!(
        inst,
        Instruction::AmoswapW {
            rd: 15,
            rs1: 9,
            rs2: 15,
            rl: false,
            aq: true,
        }
    );
    assert_eq!(inst.render(&csr_table()), "amoswap.w a5, s1, a5");
}

#[test]
fn overlap_disambiguation() {
    let single = try_decode(0xd00777d3).unwrap();
    let double = try_decode(0xD20507D3).unwrap();
    assert_eq!(single, Instruction::FcvtSW { rd: 15, rs1: 14 });
    assert_eq!(double, Instruction::FcvtDW { rd: 15, rs1: 10 });
    assert_ne!(single, double);
}

#[test]
fn csr_shorthand() {
    let t = csr_table();
    // rd = x0: short mnemonic, destination omitted.
    let short = Instruction::CsrRs {
        rd: 0,
        rs1: 0,
        imm: 0xF14,
    };
    assert_eq!(short.render(&t), "csrs mhartid, zero");
    // rd = rs1: also the short form.
    let readback = Instruction::CsrRs {
        rd: 5,
        rs1: 5,
        imm: 0x301,
    };
    assert_eq!(readback.render(&t), "csrs misa, t0");
    // rd != x0 and rd != rs1: long mnemonic with all three operands.
    let long = Instruction::CsrRs {
        rd: 11,
        rs1: 0,
        imm: 0xF14,
    };
    assert_eq!(long.render(&t), "csrrs a1, mhartid, zero");
    // An address missing from the table degrades to its hex literal.
    let unknown = Instruction::CsrRw {
        rd: 0,
        rs1: 10,
        imm: 0x7C0,
    };
    assert_eq!(unknown.render(&t), "csrw 0x7C0, a0");
}

#[test]
fn compressed_short_circuit() {
    for w in [0x0u32, 0x8602, 0xfffffffd, 0x12345678, 0xffff0001, 0x2] {
        if w & 0b11 != 0b11 {
            assert_eq!(
                try_decode(w),
                Err(DecodeError::UnsupportedCompressed { inst: w })
            );
        }
    }
}

#[test]
fn idempotence() {
    let words = [0xCF4A7AFu32, 0x06468613, 0xffffffff, 0x8602, 0xd00777d3];
    for w in words {
        assert_eq!(try_decode(w), try_decode(w));
    }
    let mut cache = DecodeCache::new();
    for w in words {
        let first = cache.decode(w);
        let second = cache.decode(w);
        assert_eq!(first, second);
        assert_eq!(first, try_decode(w));
    }
}

#[test]
fn render_shapes() {
    let t = csr_table();
    assert_eq!(
        try_decode(0x00c12603).unwrap().render(&t),
        "lw a2, 12(sp)"
    );
    assert_eq!(
        try_decode(0xfea12e23).unwrap().render(&t),
        "sw a0, -4(sp)"
    );
    assert_eq!(
        try_decode(0x06468613).unwrap().render(&t),
        "addi a2, a3, 100"
    );
    assert_eq!(
        try_decode(0x00c585b3).unwrap().render(&t),
        "add a1, a1, a2"
    );
    assert_eq!(
        try_decode(0xfe078ce3).unwrap().render(&t),
        "beq a5, zero, -8"
    );
    assert_eq!(try_decode(0x00000073).unwrap().render(&t), "ecall");
    assert_eq!(
        try_decode(0x00004537).unwrap().render(&t),
        "lui a0, 0x4"
    );
    assert_eq!(
        try_decode(0x00000597).unwrap().render(&t),
        "auipc a1, 0"
    );
    assert_eq!(
        try_decode(0x0af5f7c3).unwrap().render(&t),
        "fmadd.d a5, a1, a5, ra"
    );
    assert_eq!(
        try_decode(0xd00777d3).unwrap().render(&t),
        "fcvt.s.w a5, a4"
    );
    assert_eq!(
        try_decode(0x0100006f).unwrap().render(&t),
        "jal 16(zero)"
    );
}

#[test]
fn render_jalr_shorthands() {
    let t = csr_table();
    // imm == 0 and rd == rs1: single operand.
    let j = Instruction::Jalr {
        rd: 1,
        rs1: 1,
        imm: 0,
    };
    assert_eq!(j.render(&t), "jalr ra");
    // imm == 0, rd != rs1: two registers.
    let j = Instruction::Jalr {
        rd: 1,
        rs1: 5,
        imm: 0,
    };
    assert_eq!(j.render(&t), "jalr ra, t0");
    // imm != 0, rd == rs1: offset form on the shared register.
    let j = Instruction::Jalr {
        rd: 1,
        rs1: 1,
        imm: 12,
    };
    assert_eq!(j.render(&t), "jalr 12(ra)");
    // The general three-operand form.
    let j = Instruction::Jalr {
        rd: 1,
        rs1: 5,
        imm: (-8i32) as u32,
    };
    assert_eq!(j.render(&t), "jalr ra, -8(t0)");
}

#[test]
fn number_formatting() {
    assert_eq!(u32_dec(0), "0");
    assert_eq!(u32_dec(7), "7");
    assert_eq!(u32_dec(100), "100");
    assert_eq!(u32_dec(4294967295), "4294967295");
    assert_eq!(u32_signed_dec(100), "100");
    assert_eq!(u32_signed_dec((-8i32) as u32), "-8");
    assert_eq!(u32_signed_dec(0x80000000), "-2147483648");
    assert_eq!(u32_hex_lit(0), "0x0");
    assert_eq!(u32_hex_lit(4), "0x4");
    assert_eq!(u32_hex_lit(0xF14), "0xF14");
    assert_eq!(u32_hex_lit(0xDEADBEEF), "0xDEADBEEF");
}

#[test]
fn zero_extend_clears_sign_bit() {
    assert_eq!(zero_extend(0xffffffff), 0x7fffffff);
    assert_eq!(zero_extend(0x7fffffff), 0x7fffffff);
    assert_eq!(zero_extend(0x80000000), 0);
}
