//! Decoding tests on concrete instruction words, covering the overlapping
//! opcode families and each error kind.

use rv32_decoder::decoded_inst::Instruction;
use rv32_decoder::decoder::{
    classify_format, decode_btype, decode_itype, decode_jtype, decode_rtype, decode_stype,
    decode_utype, try_decode, try_decode_compressed,
};
use rv32_decoder::error::DecodeError;
use rv32_decoder::instructions::{is_compressed, InstructionFormat};

#[test]
fn test_decode_amoswap_w() {
    let inst = try_decode(0xCF4A7AF /* amoswap.w x15, x15, (x9) */).expect("decode failed");
    assert_eq!(
        inst,
        Instruction::AmoswapW {
            rd: 15,
            rs1: 9,
            rs2: 15,
            rl: false,
            aq: true,
        }
    );
}

#[test]
fn test_decode_fcvt_s_w() {
    let inst = try_decode(0xd00777d3 /* fcvt.s.w fa5, a4 */).expect("decode failed");
    assert_eq!(inst, Instruction::FcvtSW { rd: 15, rs1: 14 });
}

#[test]
fn test_decode_fcvt_w_s() {
    let inst = try_decode(0xc00777d3 /* fcvt.w.s a5, fa4 */).expect("decode failed");
    assert_eq!(inst, Instruction::FcvtWS { rd: 15, rs1: 14 });
}

#[test]
fn test_decode_fcvt_d_w() {
    let inst = try_decode(0xD20507D3 /* fcvt.d.w fa5, a0 */).expect("decode failed");
    assert_eq!(inst, Instruction::FcvtDW { rd: 15, rs1: 10 });
}

#[test]
fn test_decode_fcvt_w_d() {
    let inst = try_decode(0xc2079553 /* fcvt.w.d a0, fa5 */).expect("decode failed");
    assert_eq!(inst, Instruction::FcvtWD { rd: 10, rs1: 15 });
}

#[test]
fn test_decode_fmadd_d() {
    let inst = try_decode(0x0af5f7c3 /* fmadd.d fa5, fa1, fa5, ft1 */).expect("decode failed");
    assert_eq!(
        inst,
        Instruction::FmaddD {
            rd: 15,
            rs1: 11,
            rs2: 15,
            rs3: 1
        }
    );
}

#[test]
fn test_decode_fmsub_d() {
    let inst = try_decode(0x1207f047 /* fmsub.d ft0, fa5, ft0, ft2 */).expect("decode failed");
    assert_eq!(
        inst,
        Instruction::FmsubD {
            rd: 0,
            rs1: 15,
            rs2: 0,
            rs3: 2
        }
    );
}

#[test]
fn test_decode_fmv_w_x() {
    let inst = try_decode(0xf0000053 /* fmv.w.x f0, x0 */).expect("decode failed");
    assert_eq!(inst, Instruction::FmvWX { rd: 0, rs1: 0 });
}

#[test]
fn test_decode_fcvt_d_s() {
    let inst = try_decode(0x42078753 /* fcvt.d.s f14, f15 */).expect("decode failed");
    assert_eq!(inst, Instruction::FcvtDS { rd: 14, rs1: 15 });
}

#[test]
fn test_decode_fcvt_s_d() {
    let inst = try_decode(0x4017F7D3 /* fcvt.s.d f15, f15 */).expect("decode failed");
    assert_eq!(inst, Instruction::FcvtSD { rd: 15, rs1: 15 });
}

#[test]
fn test_decode_fnmsub_d() {
    let inst = try_decode(0x5A07F5CB /* fnmsub.d fa1, fa5, ft0, fa1 */).expect("decode failed");
    assert_eq!(
        inst,
        Instruction::FnmsubD {
            rd: 11,
            rs1: 15,
            rs2: 0,
            rs3: 11
        }
    );
}

#[test]
fn test_decode_srai() {
    let inst = try_decode(0x4010d093 /* srai ra, ra, 0x1 */).expect("decode failed");
    assert_eq!(
        inst,
        Instruction::Srai {
            rd: 1,
            rs1: 1,
            imm: 1
        }
    );
}

#[test]
fn classify_format_table() {
    assert_eq!(classify_format(0x00c12603), Ok(InstructionFormat::IType)); // lw
    assert_eq!(classify_format(0x00112f23), Ok(InstructionFormat::SType)); // sw
    assert_eq!(classify_format(0x00004537), Ok(InstructionFormat::UType)); // lui
    assert_eq!(classify_format(0x00000597), Ok(InstructionFormat::UType)); // auipc
    assert_eq!(classify_format(0xCF4A7AF), Ok(InstructionFormat::RType)); // amoswap.w
    assert_eq!(classify_format(0x0af5f7c3), Ok(InstructionFormat::RType)); // fmadd.d
    assert_eq!(classify_format(0xfe078ce3), Ok(InstructionFormat::BType)); // beq
    assert_eq!(classify_format(0x0100006f), Ok(InstructionFormat::JType)); // jal
    assert_eq!(
        classify_format(0xffffffff),
        Err(DecodeError::UnknownFormat { inst: 0xffffffff })
    );
}

#[test]
fn per_format_decoders() {
    assert_eq!(
        decode_itype(0x00c12603 /* lw x12, 12(sp) */),
        Ok(Instruction::Lw {
            rd: 12,
            rs1: 2,
            imm: 12
        })
    );
    assert_eq!(
        decode_stype(0x00112f23 /* sw ra, 30(sp) */),
        Ok(Instruction::Sw {
            rs1: 2,
            rs2: 1,
            imm: 30
        })
    );
    assert_eq!(
        decode_utype(0x00004537 /* lui x10, 4 */),
        Ok(Instruction::Lui {
            rd: 10,
            imm: 0x4000
        })
    );
    assert_eq!(
        decode_btype(0x00409663 /* bne x1 x4 12 */),
        Ok(Instruction::Bne {
            rs1: 1,
            rs2: 4,
            imm: 12
        })
    );
    assert_eq!(
        decode_jtype(0x0100006f /* jal x0 16 */),
        Ok(Instruction::Jal { rd: 0, imm: 16 })
    );
    assert_eq!(
        decode_rtype(0x00c585b3 /* add a1, a1, a2 */),
        Ok(Instruction::Add {
            rd: 11,
            rs1: 11,
            rs2: 12
        })
    );
    assert_eq!(
        decode_rtype(0x40c585b3 /* sub a1, a1, a2 */),
        Ok(Instruction::Sub {
            rd: 11,
            rs1: 11,
            rs2: 12
        })
    );
    assert_eq!(
        decode_rtype(0x02c585b3 /* mul a1, a1, a2 */),
        Ok(Instruction::Mul {
            rd: 11,
            rs1: 11,
            rs2: 12
        })
    );
}

#[test]
fn system_instructions() {
    assert_eq!(try_decode(0x00000073), Ok(Instruction::ECall));
    assert_eq!(try_decode(0x00100073), Ok(Instruction::EBreak));
    assert_eq!(try_decode(0x10200073), Ok(Instruction::SRet));
    assert_eq!(try_decode(0x30200073), Ok(Instruction::MRet));
    assert_eq!(try_decode(0x12000073), Ok(Instruction::SFenceVma));
}

#[test]
fn error_kinds() {
    // Opcode 127 belongs to no format.
    assert_eq!(
        try_decode(0xffffffff),
        Err(DecodeError::UnknownFormat { inst: 0xffffffff })
    );
    // Opcode 51 with funct7 = 5 matches no register-arithmetic encoding.
    assert_eq!(
        try_decode(0x0a000033),
        Err(DecodeError::UnknownEncoding {
            inst: 0x0a000033,
            format: InstructionFormat::RType
        })
    );
    // A floating-point word whose precision selector says quad.
    assert_eq!(
        try_decode(0x06000053),
        Err(DecodeError::UnsupportedPrecision { inst: 0x06000053 })
    );
    // Low two bits 10: a compressed half-word.
    assert_eq!(
        try_decode(0x8602),
        Err(DecodeError::UnsupportedCompressed { inst: 0x8602 })
    );
    assert_eq!(
        try_decode_compressed(0x8602),
        Err(DecodeError::UnsupportedCompressed { inst: 0x8602 })
    );
}

#[test]
fn extension_decodes() {
    // A extension beyond amoswap.
    assert_eq!(
        try_decode(0x100525AF /* lr.w a1, (a0) */),
        Ok(Instruction::LrW {
            rd: 11,
            rs1: 10,
            rs2: 0,
            rl: false,
            aq: false,
        })
    );
    assert_eq!(
        try_decode(0x00C525AF /* amoadd.w a1, a2, (a0) */),
        Ok(Instruction::AmoaddW {
            rd: 11,
            rs1: 10,
            rs2: 12,
            rl: false,
            aq: false,
        })
    );
    // M extension.
    assert_eq!(
        try_decode(0x02C5D533 /* divu a0, a1, a2 */),
        Ok(Instruction::Divu {
            rd: 10,
            rs1: 11,
            rs2: 12
        })
    );
    // Loads and float memory access.
    assert_eq!(
        try_decode(0x00058503 /* lb a0, 0(a1) */),
        Ok(Instruction::Lb {
            rd: 10,
            rs1: 11,
            imm: 0
        })
    );
    assert_eq!(
        try_decode(0x0005C503 /* lbu a0, 0(a1) */),
        Ok(Instruction::Lbu {
            rd: 10,
            rs1: 11,
            imm: 0
        })
    );
    assert_eq!(
        try_decode(0x0045A507 /* flw fa0, 4(a1) */),
        Ok(Instruction::Flw {
            rd: 10,
            rs1: 11,
            imm: 4
        })
    );
    assert_eq!(
        try_decode(0x00A13427 /* fsd fa0, 8(sp) */),
        Ok(Instruction::Fsd {
            rs1: 2,
            rs2: 10,
            imm: 8
        })
    );
    // Shifts keyed by the immediate's top bits.
    assert_eq!(
        try_decode(0x0037D793 /* srli a5, a5, 3 */),
        Ok(Instruction::Srli {
            rd: 15,
            rs1: 15,
            imm: 3
        })
    );
    // Fence, with its pred/succ sub-fields.
    assert_eq!(
        try_decode(0x0ff0000f /* fence iorw, iorw */),
        Ok(Instruction::Fence { pred: 15, succ: 15 })
    );
    // Floating-point compare and sign injection, keyed by funct3.
    assert_eq!(
        try_decode(0xA0B52553 /* feq.s a0, fa0, fa1 */),
        Ok(Instruction::FeqS {
            rd: 10,
            rs1: 10,
            rs2: 11
        })
    );
    assert_eq!(
        try_decode(0x20C58553 /* fsgnj.s fa0, fa1, fa2 */),
        Ok(Instruction::FsgnjS {
            rd: 10,
            rs1: 11,
            rs2: 12
        })
    );
    // CSR immediate form.
    assert_eq!(
        try_decode(0xc0006073 /* csrrsi zero, 0xC00, 0 */),
        Ok(Instruction::CsrRsi {
            rd: 0,
            rs1: 0,
            imm: 0xC00
        })
    );
}

#[test]
fn compressed_detection() {
    assert!(is_compressed(0x8602));
    assert!(is_compressed(0x0));
    assert!(is_compressed(0x1));
    assert!(!is_compressed(0x3));
    assert!(!is_compressed(0x00c12603));
}
