//! The decode pipeline: format classification from the opcode, then
//! per-format dispatch through the funct3 / funct7 / funct5 / immediate
//! sub-fields to the exact instruction variant.
//!
//! Each executable decoder is proved equal to a spec function that writes the
//! encoding table down directly, so the contract of [`try_decode`] pins the
//! decoded value (or the exact error) for every one of the 2^32 words.

use crate::decoded_inst::Instruction;
use crate::error::DecodeError;
use crate::instructions::{
    spec_aq, spec_fp_fmt, spec_funct3, spec_funct5, spec_funct7, spec_imm_b, spec_imm_i,
    spec_imm_j, spec_imm_s, spec_imm_u, spec_is_compressed, spec_opcode, spec_rd, spec_rl,
    spec_rs1, spec_rs2, spec_uimm, is_compressed, BType, IType, InstructionFormat, JType, RType,
    SType, UType, ARITHMETIC_IMMEDIATE_MATCH, ARITHMETIC_REGISTER_MATCH, ATOMIC_MATCH,
    AUIPC_MATCH, BRANCH_MATCH, CSR_MATCH, FENCE_MATCH, FLOAD_MATCH, FLOATING_POINT_MATCH,
    FMADD_MATCH, FMSUB_MATCH, FNMADD_MATCH, FNMSUB_MATCH, FSTORE_MATCH, JALR_MATCH, JAL_MATCH,
    LOAD_MATCH, LUI_MATCH, STORE_MATCH,
};
use vstd::prelude::*;

verus! {

/// Which format the opcode of `w` selects, or `UnknownFormat`.
pub open spec fn spec_classify(w: u32) -> Result<InstructionFormat, DecodeError> {
    let op = spec_opcode(w);
    if op == LOAD_MATCH || op == FLOAD_MATCH || op == FENCE_MATCH || op
        == ARITHMETIC_IMMEDIATE_MATCH || op == JALR_MATCH || op == CSR_MATCH {
        Ok(InstructionFormat::IType)
    } else if op == AUIPC_MATCH || op == LUI_MATCH {
        Ok(InstructionFormat::UType)
    } else if op == STORE_MATCH || op == FSTORE_MATCH {
        Ok(InstructionFormat::SType)
    } else if op == ATOMIC_MATCH || op == ARITHMETIC_REGISTER_MATCH || op == FLOATING_POINT_MATCH
        || op == FMADD_MATCH || op == FMSUB_MATCH || op == FNMSUB_MATCH || op == FNMADD_MATCH {
        Ok(InstructionFormat::RType)
    } else if op == BRANCH_MATCH {
        Ok(InstructionFormat::BType)
    } else if op == JAL_MATCH {
        Ok(InstructionFormat::JType)
    } else {
        Err(DecodeError::UnknownFormat { inst: w })
    }
}

/// The register-arithmetic family (opcode 51): base integer operations and
/// the M extension, keyed by (funct3, funct7).
pub open spec fn spec_decode_arith_register(w: u32) -> Result<Instruction, DecodeError> {
    let rd = spec_rd(w);
    let rs1 = spec_rs1(w);
    let rs2 = spec_rs2(w);
    let f3 = spec_funct3(w);
    let f7 = spec_funct7(w);
    if f3 == 0 && f7 == 0 {
        Ok(Instruction::Add { rd, rs1, rs2 })
    } else if f3 == 0 && f7 == 32 {
        Ok(Instruction::Sub { rd, rs1, rs2 })
    } else if f3 == 1 && f7 == 0 {
        Ok(Instruction::Sll { rd, rs1, rs2 })
    } else if f3 == 2 && f7 == 0 {
        Ok(Instruction::Slt { rd, rs1, rs2 })
    } else if f3 == 3 && f7 == 0 {
        Ok(Instruction::Sltu { rd, rs1, rs2 })
    } else if f3 == 4 && f7 == 0 {
        Ok(Instruction::Xor { rd, rs1, rs2 })
    } else if f3 == 5 && f7 == 0 {
        Ok(Instruction::Srl { rd, rs1, rs2 })
    } else if f3 == 5 && f7 == 32 {
        Ok(Instruction::Sra { rd, rs1, rs2 })
    } else if f3 == 6 && f7 == 0 {
        Ok(Instruction::Or { rd, rs1, rs2 })
    } else if f3 == 7 && f7 == 0 {
        Ok(Instruction::And { rd, rs1, rs2 })
    } else if f3 == 0 && f7 == 1 {
        Ok(Instruction::Mul { rd, rs1, rs2 })
    } else if f3 == 1 && f7 == 1 {
        Ok(Instruction::Mulh { rd, rs1, rs2 })
    } else if f3 == 2 && f7 == 1 {
        Ok(Instruction::Mulsu { rd, rs1, rs2 })
    } else if f3 == 3 && f7 == 1 {
        Ok(Instruction::Mulu { rd, rs1, rs2 })
    } else if f3 == 4 && f7 == 1 {
        Ok(Instruction::Div { rd, rs1, rs2 })
    } else if f3 == 5 && f7 == 1 {
        Ok(Instruction::Divu { rd, rs1, rs2 })
    } else if f3 == 6 && f7 == 1 {
        Ok(Instruction::Rem { rd, rs1, rs2 })
    } else if f3 == 7 && f7 == 1 {
        Ok(Instruction::Remu { rd, rs1, rs2 })
    } else {
        Err(DecodeError::UnknownEncoding { inst: w, format: InstructionFormat::RType })
    }
}

/// The atomic family (opcode 47): funct3 is fixed at 2, funct5 selects the
/// operation, and the low two bits of funct7 are the release and acquire
/// ordering bits.
pub open spec fn spec_decode_atomic(w: u32) -> Result<Instruction, DecodeError> {
    let rd = spec_rd(w);
    let rs1 = spec_rs1(w);
    let rs2 = spec_rs2(w);
    let rl = spec_rl(w);
    let aq = spec_aq(w);
    let f5 = spec_funct5(w);
    if spec_funct3(w) != 2 {
        Err(DecodeError::UnknownEncoding { inst: w, format: InstructionFormat::RType })
    } else if f5 == 2 {
        Ok(Instruction::LrW { rd, rs1, rs2, rl, aq })
    } else if f5 == 3 {
        Ok(Instruction::ScW { rd, rs1, rs2, rl, aq })
    } else if f5 == 1 {
        Ok(Instruction::AmoswapW { rd, rs1, rs2, rl, aq })
    } else if f5 == 0 {
        Ok(Instruction::AmoaddW { rd, rs1, rs2, rl, aq })
    } else if f5 == 12 {
        Ok(Instruction::AmoandW { rd, rs1, rs2, rl, aq })
    } else if f5 == 10 {
        Ok(Instruction::AmoorW { rd, rs1, rs2, rl, aq })
    } else if f5 == 4 {
        Ok(Instruction::AmoxorW { rd, rs1, rs2, rl, aq })
    } else if f5 == 20 {
        Ok(Instruction::AmomaxW { rd, rs1, rs2, rl, aq })
    } else if f5 == 16 {
        Ok(Instruction::AmominW { rd, rs1, rs2, rl, aq })
    } else {
        Err(DecodeError::UnknownEncoding { inst: w, format: InstructionFormat::RType })
    }
}

/// Single-precision operations of the floating-point family (fmt = 0),
/// keyed by funct5 with funct3 breaking ties among the sign-injection,
/// compare and classify variants and rs2 selecting signed versus unsigned
/// conversions.
pub open spec fn spec_decode_single_precision(w: u32) -> Result<Instruction, DecodeError> {
    let rd = spec_rd(w);
    let rs1 = spec_rs1(w);
    let rs2 = spec_rs2(w);
    let f3 = spec_funct3(w);
    let f5 = spec_funct5(w);
    if f5 == 0 {
        Ok(Instruction::FaddS { rd, rs1, rs2 })
    } else if f5 == 1 {
        Ok(Instruction::FsubS { rd, rs1, rs2 })
    } else if f5 == 2 {
        Ok(Instruction::FmulS { rd, rs1, rs2 })
    } else if f5 == 3 {
        Ok(Instruction::FdivS { rd, rs1, rs2 })
    } else if f5 == 11 {
        Ok(Instruction::FsqrtS { rd, rs1 })
    } else if f5 == 4 && f3 == 0 {
        Ok(Instruction::FsgnjS { rd, rs1, rs2 })
    } else if f5 == 4 && f3 == 1 {
        Ok(Instruction::FsgnjnS { rd, rs1, rs2 })
    } else if f5 == 4 && f3 == 2 {
        Ok(Instruction::FsgnjxS { rd, rs1, rs2 })
    } else if f5 == 5 && f3 == 0 {
        Ok(Instruction::FminS { rd, rs1, rs2 })
    } else if f5 == 5 && f3 == 1 {
        Ok(Instruction::FmaxS { rd, rs1, rs2 })
    } else if f5 == 8 {
        Ok(Instruction::FcvtSD { rd, rs1 })
    } else if f5 == 20 && f3 == 0 {
        Ok(Instruction::FleS { rd, rs1, rs2 })
    } else if f5 == 20 && f3 == 1 {
        Ok(Instruction::FltS { rd, rs1, rs2 })
    } else if f5 == 20 && f3 == 2 {
        Ok(Instruction::FeqS { rd, rs1, rs2 })
    } else if f5 == 24 && rs2 == 0 {
        Ok(Instruction::FcvtWS { rd, rs1 })
    } else if f5 == 24 && rs2 == 1 {
        Ok(Instruction::FcvtWUS { rd, rs1 })
    } else if f5 == 26 && rs2 == 0 {
        Ok(Instruction::FcvtSW { rd, rs1 })
    } else if f5 == 26 && rs2 == 1 {
        Ok(Instruction::FcvtSWU { rd, rs1 })
    } else if f5 == 28 && f3 == 0 {
        Ok(Instruction::FmvXW { rd, rs1 })
    } else if f5 == 28 && f3 == 1 {
        Ok(Instruction::FClassS { rd, rs1 })
    } else if f5 == 30 {
        Ok(Instruction::FmvWX { rd, rs1 })
    } else {
        Err(DecodeError::UnknownEncoding { inst: w, format: InstructionFormat::RType })
    }
}

/// Double-precision operations of the floating-point family (fmt = 1).
pub open spec fn spec_decode_double_precision(w: u32) -> Result<Instruction, DecodeError> {
    let rd = spec_rd(w);
    let rs1 = spec_rs1(w);
    let rs2 = spec_rs2(w);
    let f3 = spec_funct3(w);
    let f5 = spec_funct5(w);
    if f5 == 0 {
        Ok(Instruction::FaddD { rd, rs1, rs2 })
    } else if f5 == 1 {
        Ok(Instruction::FsubD { rd, rs1, rs2 })
    } else if f5 == 2 {
        Ok(Instruction::FmulD { rd, rs1, rs2 })
    } else if f5 == 3 {
        Ok(Instruction::FdivD { rd, rs1, rs2 })
    } else if f5 == 11 {
        Ok(Instruction::FsqrtD { rd, rs1 })
    } else if f5 == 4 && f3 == 0 {
        Ok(Instruction::FsgnjD { rd, rs1, rs2 })
    } else if f5 == 4 && f3 == 1 {
        Ok(Instruction::FsgnjnD { rd, rs1, rs2 })
    } else if f5 == 4 && f3 == 2 {
        Ok(Instruction::FsgnjxD { rd, rs1, rs2 })
    } else if f5 == 5 && f3 == 0 {
        Ok(Instruction::FminD { rd, rs1, rs2 })
    } else if f5 == 5 && f3 == 1 {
        Ok(Instruction::FmaxD { rd, rs1, rs2 })
    } else if f5 == 8 {
        Ok(Instruction::FcvtDS { rd, rs1 })
    } else if f5 == 20 && f3 == 0 {
        Ok(Instruction::FleD { rd, rs1, rs2 })
    } else if f5 == 20 && f3 == 1 {
        Ok(Instruction::FltD { rd, rs1, rs2 })
    } else if f5 == 20 && f3 == 2 {
        Ok(Instruction::FeqD { rd, rs1, rs2 })
    } else if f5 == 24 && rs2 == 0 {
        Ok(Instruction::FcvtWD { rd, rs1 })
    } else if f5 == 24 && rs2 == 1 {
        Ok(Instruction::FcvtWUD { rd, rs1 })
    } else if f5 == 26 && rs2 == 0 {
        Ok(Instruction::FcvtDW { rd, rs1 })
    } else if f5 == 26 && rs2 == 1 {
        Ok(Instruction::FcvtDWU { rd, rs1 })
    } else if f5 == 28 && f3 == 1 {
        Ok(Instruction::FClassD { rd, rs1 })
    } else {
        Err(DecodeError::UnknownEncoding { inst: w, format: InstructionFormat::RType })
    }
}

/// Quad-precision operations (fmt = 3): recognized, never decoded.
pub open spec fn spec_decode_quad_precision(w: u32) -> Result<Instruction, DecodeError> {
    Err(DecodeError::UnsupportedPrecision { inst: w })
}

/// All R-type opcodes: register arithmetic, atomics, the floating-point
/// family split by its precision selector, and the four double-precision
/// fused-multiply-add opcodes (whose rs3 operand is the top five bits of
/// funct7).
pub open spec fn spec_decode_rtype(w: u32) -> Result<Instruction, DecodeError> {
    let op = spec_opcode(w);
    let rd = spec_rd(w);
    let rs1 = spec_rs1(w);
    let rs2 = spec_rs2(w);
    let rs3 = spec_funct5(w);
    if op == ARITHMETIC_REGISTER_MATCH {
        spec_decode_arith_register(w)
    } else if op == ATOMIC_MATCH {
        spec_decode_atomic(w)
    } else if op == FLOATING_POINT_MATCH {
        if spec_fp_fmt(w) == 0 {
            spec_decode_single_precision(w)
        } else if spec_fp_fmt(w) == 1 {
            spec_decode_double_precision(w)
        } else if spec_fp_fmt(w) == 3 {
            spec_decode_quad_precision(w)
        } else {
            Err(DecodeError::UnknownEncoding { inst: w, format: InstructionFormat::RType })
        }
    } else if op == FMADD_MATCH {
        Ok(Instruction::FmaddD { rd, rs1, rs2, rs3 })
    } else if op == FMSUB_MATCH {
        Ok(Instruction::FmsubD { rd, rs1, rs2, rs3 })
    } else if op == FNMSUB_MATCH {
        Ok(Instruction::FnmsubD { rd, rs1, rs2, rs3 })
    } else if op == FNMADD_MATCH {
        Ok(Instruction::FnmaddD { rd, rs1, rs2, rs3 })
    } else {
        Err(DecodeError::UnknownEncoding { inst: w, format: InstructionFormat::RType })
    }
}

/// The immediate-arithmetic opcode (19): simple operations keyed by funct3
/// alone; the shifts additionally dispatch on the top seven bits of the
/// immediate, with the shift amount in its low five bits.
pub open spec fn spec_decode_arith_immediate(w: u32) -> Result<Instruction, DecodeError> {
    let rd = spec_rd(w);
    let rs1 = spec_rs1(w);
    let imm = spec_imm_i(w);
    let f3 = spec_funct3(w);
    let shift_kind = spec_uimm(w) >> 5;
    let shamt = spec_uimm(w) & 0x1f;
    if f3 == 0 {
        Ok(Instruction::Addi { rd, rs1, imm })
    } else if f3 == 2 {
        Ok(Instruction::Slti { rd, rs1, imm })
    } else if f3 == 3 {
        Ok(Instruction::Sltiu { rd, rs1, imm })
    } else if f3 == 4 {
        Ok(Instruction::Xori { rd, rs1, imm })
    } else if f3 == 6 {
        Ok(Instruction::Ori { rd, rs1, imm })
    } else if f3 == 7 {
        Ok(Instruction::Andi { rd, rs1, imm })
    } else if f3 == 1 && shift_kind == 0 {
        Ok(Instruction::Slli { rd, rs1, imm: shamt })
    } else if f3 == 5 && shift_kind == 0 {
        Ok(Instruction::Srli { rd, rs1, imm: shamt })
    } else if f3 == 5 && shift_kind == 32 {
        Ok(Instruction::Srai { rd, rs1, imm: shamt })
    } else {
        Err(DecodeError::UnknownEncoding { inst: w, format: InstructionFormat::IType })
    }
}

/// The CSR/system opcode (115): funct3 selects among the six CSR operations
/// (whose operand is the unsigned 12-bit CSR address); funct3 = 0 instead
/// matches the full immediate exactly against the system instructions.
pub open spec fn spec_decode_system(w: u32) -> Result<Instruction, DecodeError> {
    let rd = spec_rd(w);
    let rs1 = spec_rs1(w);
    let uimm = spec_uimm(w);
    let f3 = spec_funct3(w);
    if f3 == 1 {
        Ok(Instruction::CsrRw { rd, rs1, imm: uimm })
    } else if f3 == 2 {
        Ok(Instruction::CsrRs { rd, rs1, imm: uimm })
    } else if f3 == 3 {
        Ok(Instruction::CsrRc { rd, rs1, imm: uimm })
    } else if f3 == 5 {
        Ok(Instruction::CsrRwi { rd, rs1, imm: uimm })
    } else if f3 == 6 {
        Ok(Instruction::CsrRsi { rd, rs1, imm: uimm })
    } else if f3 == 7 {
        Ok(Instruction::CsrRci { rd, rs1, imm: uimm })
    } else if f3 == 0 && uimm == 0 {
        Ok(Instruction::ECall)
    } else if f3 == 0 && uimm == 1 {
        Ok(Instruction::EBreak)
    } else if f3 == 0 && uimm == 0x102 {
        Ok(Instruction::SRet)
    } else if f3 == 0 && uimm == 0x302 {
        Ok(Instruction::MRet)
    } else if f3 == 0 && uimm == 0x120 {
        Ok(Instruction::SFenceVma)
    } else {
        Err(DecodeError::UnknownEncoding { inst: w, format: InstructionFormat::IType })
    }
}

/// All I-type opcodes: immediate arithmetic, loads, float loads, JALR,
/// the fences (whose pred and succ operands are 4-bit sub-fields of the
/// immediate) and the CSR/system family.
pub open spec fn spec_decode_itype(w: u32) -> Result<Instruction, DecodeError> {
    let op = spec_opcode(w);
    let rd = spec_rd(w);
    let rs1 = spec_rs1(w);
    let imm = spec_imm_i(w);
    let f3 = spec_funct3(w);
    if op == ARITHMETIC_IMMEDIATE_MATCH {
        spec_decode_arith_immediate(w)
    } else if op == LOAD_MATCH {
        if f3 == 0 {
            Ok(Instruction::Lb { rd, rs1, imm })
        } else if f3 == 1 {
            Ok(Instruction::Lh { rd, rs1, imm })
        } else if f3 == 2 {
            Ok(Instruction::Lw { rd, rs1, imm })
        } else if f3 == 4 {
            Ok(Instruction::Lbu { rd, rs1, imm })
        } else if f3 == 5 {
            Ok(Instruction::Lhu { rd, rs1, imm })
        } else {
            Err(DecodeError::UnknownEncoding { inst: w, format: InstructionFormat::IType })
        }
    } else if op == FLOAD_MATCH {
        if f3 == 2 {
            Ok(Instruction::Flw { rd, rs1, imm })
        } else if f3 == 3 {
            Ok(Instruction::Fld { rd, rs1, imm })
        } else {
            Err(DecodeError::UnknownEncoding { inst: w, format: InstructionFormat::IType })
        }
    } else if op == JALR_MATCH && f3 == 0 {
        Ok(Instruction::Jalr { rd, rs1, imm })
    } else if op == FENCE_MATCH {
        let pred = (w >> 20) & 0xf;
        let succ = (w >> 24) & 0xf;
        if f3 == 0 {
            Ok(Instruction::Fence { pred, succ })
        } else if f3 == 1 {
            Ok(Instruction::FenceI { pred, succ })
        } else {
            Err(DecodeError::UnknownEncoding { inst: w, format: InstructionFormat::IType })
        }
    } else if op == CSR_MATCH {
        spec_decode_system(w)
    } else {
        Err(DecodeError::UnknownEncoding { inst: w, format: InstructionFormat::IType })
    }
}

/// The two S-type opcodes: integer stores and float stores, keyed by funct3.
pub open spec fn spec_decode_stype(w: u32) -> Result<Instruction, DecodeError> {
    let op = spec_opcode(w);
    let rs1 = spec_rs1(w);
    let rs2 = spec_rs2(w);
    let imm = spec_imm_s(w);
    let f3 = spec_funct3(w);
    if op == STORE_MATCH {
        if f3 == 0 {
            Ok(Instruction::Sb { rs1, rs2, imm })
        } else if f3 == 1 {
            Ok(Instruction::Sh { rs1, rs2, imm })
        } else if f3 == 2 {
            Ok(Instruction::Sw { rs1, rs2, imm })
        } else {
            Err(DecodeError::UnknownEncoding { inst: w, format: InstructionFormat::SType })
        }
    } else if op == FSTORE_MATCH {
        if f3 == 2 {
            Ok(Instruction::Fsw { rs1, rs2, imm })
        } else if f3 == 3 {
            Ok(Instruction::Fsd { rs1, rs2, imm })
        } else {
            Err(DecodeError::UnknownEncoding { inst: w, format: InstructionFormat::SType })
        }
    } else {
        Err(DecodeError::UnknownEncoding { inst: w, format: InstructionFormat::SType })
    }
}

/// The two U-type opcodes: LUI and AUIPC.
pub open spec fn spec_decode_utype(w: u32) -> Result<Instruction, DecodeError> {
    let op = spec_opcode(w);
    let rd = spec_rd(w);
    let imm = spec_imm_u(w);
    if op == LUI_MATCH {
        Ok(Instruction::Lui { rd, imm })
    } else if op == AUIPC_MATCH {
        Ok(Instruction::AuiPc { rd, imm })
    } else {
        Err(DecodeError::UnknownEncoding { inst: w, format: InstructionFormat::UType })
    }
}

/// The branch family, keyed by funct3 alone.
pub open spec fn spec_decode_btype(w: u32) -> Result<Instruction, DecodeError> {
    let rs1 = spec_rs1(w);
    let rs2 = spec_rs2(w);
    let imm = spec_imm_b(w);
    let f3 = spec_funct3(w);
    if f3 == 0 {
        Ok(Instruction::Beq { rs1, rs2, imm })
    } else if f3 == 1 {
        Ok(Instruction::Bne { rs1, rs2, imm })
    } else if f3 == 4 {
        Ok(Instruction::Blt { rs1, rs2, imm })
    } else if f3 == 5 {
        Ok(Instruction::Bge { rs1, rs2, imm })
    } else if f3 == 6 {
        Ok(Instruction::Bltu { rs1, rs2, imm })
    } else if f3 == 7 {
        Ok(Instruction::Bgeu { rs1, rs2, imm })
    } else {
        Err(DecodeError::UnknownEncoding { inst: w, format: InstructionFormat::BType })
    }
}

/// The single J-type opcode: JAL.
pub open spec fn spec_decode_jtype(w: u32) -> Result<Instruction, DecodeError> {
    if spec_opcode(w) == JAL_MATCH {
        Ok(Instruction::Jal { rd: spec_rd(w), imm: spec_imm_j(w) })
    } else {
        Err(DecodeError::UnknownEncoding { inst: w, format: InstructionFormat::JType })
    }
}

/// The whole pipeline: compressed short-circuit, then classification, then
/// the matching per-format decoder.
pub open spec fn spec_try_decode(w: u32) -> Result<Instruction, DecodeError> {
    if spec_is_compressed(w) {
        Err(DecodeError::UnsupportedCompressed { inst: w })
    } else {
        match spec_classify(w) {
            Err(e) => Err(e),
            Ok(InstructionFormat::RType) => spec_decode_rtype(w),
            Ok(InstructionFormat::IType) => spec_decode_itype(w),
            Ok(InstructionFormat::SType) => spec_decode_stype(w),
            Ok(InstructionFormat::UType) => spec_decode_utype(w),
            Ok(InstructionFormat::BType) => spec_decode_btype(w),
            Ok(InstructionFormat::JType) => spec_decode_jtype(w),
        }
    }
}

/// Classifies the word's opcode into one of the six formats.
pub fn classify_format(inst: u32) -> (r: Result<InstructionFormat, DecodeError>)
    ensures
        r == spec_classify(inst),
{
    let op = inst & 0x7f;
    if op == LOAD_MATCH || op == FLOAD_MATCH || op == FENCE_MATCH || op
        == ARITHMETIC_IMMEDIATE_MATCH || op == JALR_MATCH || op == CSR_MATCH {
        Ok(InstructionFormat::IType)
    } else if op == AUIPC_MATCH || op == LUI_MATCH {
        Ok(InstructionFormat::UType)
    } else if op == STORE_MATCH || op == FSTORE_MATCH {
        Ok(InstructionFormat::SType)
    } else if op == ATOMIC_MATCH || op == ARITHMETIC_REGISTER_MATCH || op == FLOATING_POINT_MATCH
        || op == FMADD_MATCH || op == FMSUB_MATCH || op == FNMSUB_MATCH || op == FNMADD_MATCH {
        Ok(InstructionFormat::RType)
    } else if op == BRANCH_MATCH {
        Ok(InstructionFormat::BType)
    } else if op == JAL_MATCH {
        Ok(InstructionFormat::JType)
    } else {
        Err(DecodeError::UnknownFormat { inst })
    }
}

/// Decodes a single-precision floating-point operation.
fn decode_single_precision(inst: &RType, funct3: u32, funct5: u32) -> (r: Result<
    Instruction,
    DecodeError,
>)
    requires
        funct3 == spec_funct3(inst.0),
        funct5 == spec_funct5(inst.0),
    ensures
        r == spec_decode_single_precision(inst.0),
{
    let rd = inst.rd();
    let rs1 = inst.rs1();
    let rs2 = inst.rs2();
    if funct5 == 0 {
        Ok(Instruction::FaddS { rd, rs1, rs2 })
    } else if funct5 == 1 {
        Ok(Instruction::FsubS { rd, rs1, rs2 })
    } else if funct5 == 2 {
        Ok(Instruction::FmulS { rd, rs1, rs2 })
    } else if funct5 == 3 {
        Ok(Instruction::FdivS { rd, rs1, rs2 })
    } else if funct5 == 11 {
        Ok(Instruction::FsqrtS { rd, rs1 })
    } else if funct5 == 4 && funct3 == 0 {
        Ok(Instruction::FsgnjS { rd, rs1, rs2 })
    } else if funct5 == 4 && funct3 == 1 {
        Ok(Instruction::FsgnjnS { rd, rs1, rs2 })
    } else if funct5 == 4 && funct3 == 2 {
        Ok(Instruction::FsgnjxS { rd, rs1, rs2 })
    } else if funct5 == 5 && funct3 == 0 {
        Ok(Instruction::FminS { rd, rs1, rs2 })
    } else if funct5 == 5 && funct3 == 1 {
        Ok(Instruction::FmaxS { rd, rs1, rs2 })
    } else if funct5 == 8 {
        Ok(Instruction::FcvtSD { rd, rs1 })
    } else if funct5 == 20 && funct3 == 0 {
        Ok(Instruction::FleS { rd, rs1, rs2 })
    } else if funct5 == 20 && funct3 == 1 {
        Ok(Instruction::FltS { rd, rs1, rs2 })
    } else if funct5 == 20 && funct3 == 2 {
        Ok(Instruction::FeqS { rd, rs1, rs2 })
    } else if funct5 == 24 && rs2 == 0 {
        Ok(Instruction::FcvtWS { rd, rs1 })
    } else if funct5 == 24 && rs2 == 1 {
        Ok(Instruction::FcvtWUS { rd, rs1 })
    } else if funct5 == 26 && rs2 == 0 {
        Ok(Instruction::FcvtSW { rd, rs1 })
    } else if funct5 == 26 && rs2 == 1 {
        Ok(Instruction::FcvtSWU { rd, rs1 })
    } else if funct5 == 28 && funct3 == 0 {
        Ok(Instruction::FmvXW { rd, rs1 })
    } else if funct5 == 28 && funct3 == 1 {
        Ok(Instruction::FClassS { rd, rs1 })
    } else if funct5 == 30 {
        Ok(Instruction::FmvWX { rd, rs1 })
    } else {
        Err(DecodeError::UnknownEncoding { inst: inst.0, format: InstructionFormat::RType })
    }
}

/// Decodes a double-precision floating-point operation.
fn decode_double_precision(inst: &RType, funct3: u32, funct5: u32) -> (r: Result<
    Instruction,
    DecodeError,
>)
    requires
        funct3 == spec_funct3(inst.0),
        funct5 == spec_funct5(inst.0),
    ensures
        r == spec_decode_double_precision(inst.0),
{
    let rd = inst.rd();
    let rs1 = inst.rs1();
    let rs2 = inst.rs2();
    if funct5 == 0 {
        Ok(Instruction::FaddD { rd, rs1, rs2 })
    } else if funct5 == 1 {
        Ok(Instruction::FsubD { rd, rs1, rs2 })
    } else if funct5 == 2 {
        Ok(Instruction::FmulD { rd, rs1, rs2 })
    } else if funct5 == 3 {
        Ok(Instruction::FdivD { rd, rs1, rs2 })
    } else if funct5 == 11 {
        Ok(Instruction::FsqrtD { rd, rs1 })
    } else if funct5 == 4 && funct3 == 0 {
        Ok(Instruction::FsgnjD { rd, rs1, rs2 })
    } else if funct5 == 4 && funct3 == 1 {
        Ok(Instruction::FsgnjnD { rd, rs1, rs2 })
    } else if funct5 == 4 && funct3 == 2 {
        Ok(Instruction::FsgnjxD { rd, rs1, rs2 })
    } else if funct5 == 5 && funct3 == 0 {
        Ok(Instruction::FminD { rd, rs1, rs2 })
    } else if funct5 == 5 && funct3 == 1 {
        Ok(Instruction::FmaxD { rd, rs1, rs2 })
    } else if funct5 == 8 {
        Ok(Instruction::FcvtDS { rd, rs1 })
    } else if funct5 == 20 && funct3 == 0 {
        Ok(Instruction::FleD { rd, rs1, rs2 })
    } else if funct5 == 20 && funct3 == 1 {
        Ok(Instruction::FltD { rd, rs1, rs2 })
    } else if funct5 == 20 && funct3 == 2 {
        Ok(Instruction::FeqD { rd, rs1, rs2 })
    } else if funct5 == 24 && rs2 == 0 {
        Ok(Instruction::FcvtWD { rd, rs1 })
    } else if funct5 == 24 && rs2 == 1 {
        Ok(Instruction::FcvtWUD { rd, rs1 })
    } else if funct5 == 26 && rs2 == 0 {
        Ok(Instruction::FcvtDW { rd, rs1 })
    } else if funct5 == 26 && rs2 == 1 {
        Ok(Instruction::FcvtDWU { rd, rs1 })
    } else if funct5 == 28 && funct3 == 1 {
        Ok(Instruction::FClassD { rd, rs1 })
    } else {
        Err(DecodeError::UnknownEncoding { inst: inst.0, format: InstructionFormat::RType })
    }
}

/// Rejects a quad-precision floating-point operation.
fn decode_quad_precision(inst: &RType, _funct3: u32, _funct5: u32) -> (r: Result<
    Instruction,
    DecodeError,
>)
    ensures
        r == spec_decode_quad_precision(inst.0),
{
    Err(DecodeError::UnsupportedPrecision { inst: inst.0 })
}

/// Decodes any word whose opcode belongs to the R-type family.
pub fn decode_rtype(inst: u32) -> (r: Result<Instruction, DecodeError>)
    ensures
        r == spec_decode_rtype(inst),
{
    let inst = RType::new(inst);
    let op = inst.opcode();
    if op == ARITHMETIC_REGISTER_MATCH {
        let rd = inst.rd();
        let rs1 = inst.rs1();
        let rs2 = inst.rs2();
        let f3 = inst.funct3();
        let f7 = inst.funct7();
        if f3 == 0 && f7 == 0 {
            Ok(Instruction::Add { rd, rs1, rs2 })
        } else if f3 == 0 && f7 == 32 {
            Ok(Instruction::Sub { rd, rs1, rs2 })
        } else if f3 == 1 && f7 == 0 {
            Ok(Instruction::Sll { rd, rs1, rs2 })
        } else if f3 == 2 && f7 == 0 {
            Ok(Instruction::Slt { rd, rs1, rs2 })
        } else if f3 == 3 && f7 == 0 {
            Ok(Instruction::Sltu { rd, rs1, rs2 })
        } else if f3 == 4 && f7 == 0 {
            Ok(Instruction::Xor { rd, rs1, rs2 })
        } else if f3 == 5 && f7 == 0 {
            Ok(Instruction::Srl { rd, rs1, rs2 })
        } else if f3 == 5 && f7 == 32 {
            Ok(Instruction::Sra { rd, rs1, rs2 })
        } else if f3 == 6 && f7 == 0 {
            Ok(Instruction::Or { rd, rs1, rs2 })
        } else if f3 == 7 && f7 == 0 {
            Ok(Instruction::And { rd, rs1, rs2 })
        } else if f3 == 0 && f7 == 1 {
            Ok(Instruction::Mul { rd, rs1, rs2 })
        } else if f3 == 1 && f7 == 1 {
            Ok(Instruction::Mulh { rd, rs1, rs2 })
        } else if f3 == 2 && f7 == 1 {
            Ok(Instruction::Mulsu { rd, rs1, rs2 })
        } else if f3 == 3 && f7 == 1 {
            Ok(Instruction::Mulu { rd, rs1, rs2 })
        } else if f3 == 4 && f7 == 1 {
            Ok(Instruction::Div { rd, rs1, rs2 })
        } else if f3 == 5 && f7 == 1 {
            Ok(Instruction::Divu { rd, rs1, rs2 })
        } else if f3 == 6 && f7 == 1 {
            Ok(Instruction::Rem { rd, rs1, rs2 })
        } else if f3 == 7 && f7 == 1 {
            Ok(Instruction::Remu { rd, rs1, rs2 })
        } else {
            Err(DecodeError::UnknownEncoding { inst: inst.0, format: InstructionFormat::RType })
        }
    } else if op == ATOMIC_MATCH {
        let rd = inst.rd();
        let rs1 = inst.rs1();
        let rs2 = inst.rs2();
        let rl = inst.rl();
        let aq = inst.aq();
        let f5 = inst.funct5();
        if inst.funct3() != 2 {
            Err(DecodeError::UnknownEncoding { inst: inst.0, format: InstructionFormat::RType })
        } else if f5 == 2 {
            Ok(Instruction::LrW { rd, rs1, rs2, rl, aq })
        } else if f5 == 3 {
            Ok(Instruction::ScW { rd, rs1, rs2, rl, aq })
        } else if f5 == 1 {
            Ok(Instruction::AmoswapW { rd, rs1, rs2, rl, aq })
        } else if f5 == 0 {
            Ok(Instruction::AmoaddW { rd, rs1, rs2, rl, aq })
        } else if f5 == 12 {
            Ok(Instruction::AmoandW { rd, rs1, rs2, rl, aq })
        } else if f5 == 10 {
            Ok(Instruction::AmoorW { rd, rs1, rs2, rl, aq })
        } else if f5 == 4 {
            Ok(Instruction::AmoxorW { rd, rs1, rs2, rl, aq })
        } else if f5 == 20 {
            Ok(Instruction::AmomaxW { rd, rs1, rs2, rl, aq })
        } else if f5 == 16 {
            Ok(Instruction::AmominW { rd, rs1, rs2, rl, aq })
        } else {
            Err(DecodeError::UnknownEncoding { inst: inst.0, format: InstructionFormat::RType })
        }
    } else if op == FLOATING_POINT_MATCH {
        let fmt = inst.fp_fmt();
        if fmt == 0 {
            decode_single_precision(&inst, inst.funct3(), inst.funct5())
        } else if fmt == 1 {
            decode_double_precision(&inst, inst.funct3(), inst.funct5())
        } else if fmt == 3 {
            decode_quad_precision(&inst, inst.funct3(), inst.funct5())
        } else {
            Err(DecodeError::UnknownEncoding { inst: inst.0, format: InstructionFormat::RType })
        }
    } else if op == FMADD_MATCH {
        Ok(Instruction::FmaddD { rd: inst.rd(), rs1: inst.rs1(), rs2: inst.rs2(), rs3: inst.funct5() })
    } else if op == FMSUB_MATCH {
        Ok(Instruction::FmsubD { rd: inst.rd(), rs1: inst.rs1(), rs2: inst.rs2(), rs3: inst.funct5() })
    } else if op == FNMSUB_MATCH {
        Ok(Instruction::FnmsubD { rd: inst.rd(), rs1: inst.rs1(), rs2: inst.rs2(), rs3: inst.funct5() })
    } else if op == FNMADD_MATCH {
        Ok(Instruction::FnmaddD { rd: inst.rd(), rs1: inst.rs1(), rs2: inst.rs2(), rs3: inst.funct5() })
    } else {
        Err(DecodeError::UnknownEncoding { inst: inst.0, format: InstructionFormat::RType })
    }
}

/// Decodes any word whose opcode belongs to the I-type family.
pub fn decode_itype(inst: u32) -> (r: Result<Instruction, DecodeError>)
    ensures
        r == spec_decode_itype(inst),
{
    let iinst = IType::new(inst);
    let op = iinst.opcode();
    if op == ARITHMETIC_IMMEDIATE_MATCH {
        let rd = iinst.rd();
        let rs1 = iinst.rs1();
        let imm = iinst.imm();
        let f3 = iinst.funct3();
        let shift_kind = iinst.uimm() >> 5;
        let shamt = iinst.uimm() & 0x1f;
        if f3 == 0 {
            Ok(Instruction::Addi { rd, rs1, imm })
        } else if f3 == 2 {
            Ok(Instruction::Slti { rd, rs1, imm })
        } else if f3 == 3 {
            Ok(Instruction::Sltiu { rd, rs1, imm })
        } else if f3 == 4 {
            Ok(Instruction::Xori { rd, rs1, imm })
        } else if f3 == 6 {
            Ok(Instruction::Ori { rd, rs1, imm })
        } else if f3 == 7 {
            Ok(Instruction::Andi { rd, rs1, imm })
        } else if f3 == 1 && shift_kind == 0 {
            Ok(Instruction::Slli { rd, rs1, imm: shamt })
        } else if f3 == 5 && shift_kind == 0 {
            Ok(Instruction::Srli { rd, rs1, imm: shamt })
        } else if f3 == 5 && shift_kind == 32 {
            Ok(Instruction::Srai { rd, rs1, imm: shamt })
        } else {
            Err(DecodeError::UnknownEncoding { inst, format: InstructionFormat::IType })
        }
    } else if op == LOAD_MATCH {
        let rd = iinst.rd();
        let rs1 = iinst.rs1();
        let imm = iinst.imm();
        let f3 = iinst.funct3();
        if f3 == 0 {
            Ok(Instruction::Lb { rd, rs1, imm })
        } else if f3 == 1 {
            Ok(Instruction::Lh { rd, rs1, imm })
        } else if f3 == 2 {
            Ok(Instruction::Lw { rd, rs1, imm })
        } else if f3 == 4 {
            Ok(Instruction::Lbu { rd, rs1, imm })
        } else if f3 == 5 {
            Ok(Instruction::Lhu { rd, rs1, imm })
        } else {
            Err(DecodeError::UnknownEncoding { inst, format: InstructionFormat::IType })
        }
    } else if op == FLOAD_MATCH {
        let rd = iinst.rd();
        let rs1 = iinst.rs1();
        let imm = iinst.imm();
        let f3 = iinst.funct3();
        if f3 == 2 {
            Ok(Instruction::Flw { rd, rs1, imm })
        } else if f3 == 3 {
            Ok(Instruction::Fld { rd, rs1, imm })
        } else {
            Err(DecodeError::UnknownEncoding { inst, format: InstructionFormat::IType })
        }
    } else if op == JALR_MATCH && iinst.funct3() == 0 {
        Ok(Instruction::Jalr { rd: iinst.rd(), rs1: iinst.rs1(), imm: iinst.imm() })
    } else if op == FENCE_MATCH {
        let pred = (inst >> 20) & 0xf;
        let succ = (inst >> 24) & 0xf;
        let f3 = iinst.funct3();
        if f3 == 0 {
            Ok(Instruction::Fence { pred, succ })
        } else if f3 == 1 {
            Ok(Instruction::FenceI { pred, succ })
        } else {
            Err(DecodeError::UnknownEncoding { inst, format: InstructionFormat::IType })
        }
    } else if op == CSR_MATCH {
        let rd = iinst.rd();
        let rs1 = iinst.rs1();
        let uimm = iinst.uimm();
        let f3 = iinst.funct3();
        if f3 == 1 {
            Ok(Instruction::CsrRw { rd, rs1, imm: uimm })
        } else if f3 == 2 {
            Ok(Instruction::CsrRs { rd, rs1, imm: uimm })
        } else if f3 == 3 {
            Ok(Instruction::CsrRc { rd, rs1, imm: uimm })
        } else if f3 == 5 {
            Ok(Instruction::CsrRwi { rd, rs1, imm: uimm })
        } else if f3 == 6 {
            Ok(Instruction::CsrRsi { rd, rs1, imm: uimm })
        } else if f3 == 7 {
            Ok(Instruction::CsrRci { rd, rs1, imm: uimm })
        } else if f3 == 0 && uimm == 0 {
            Ok(Instruction::ECall)
        } else if f3 == 0 && uimm == 1 {
            Ok(Instruction::EBreak)
        } else if f3 == 0 && uimm == 0x102 {
            Ok(Instruction::SRet)
        } else if f3 == 0 && uimm == 0x302 {
            Ok(Instruction::MRet)
        } else if f3 == 0 && uimm == 0x120 {
            Ok(Instruction::SFenceVma)
        } else {
            Err(DecodeError::UnknownEncoding { inst, format: InstructionFormat::IType })
        }
    } else {
        Err(DecodeError::UnknownEncoding { inst, format: InstructionFormat::IType })
    }
}

/// Decodes any word whose opcode belongs to the S-type family.
pub fn decode_stype(inst: u32) -> (r: Result<Instruction, DecodeError>)
    ensures
        r == spec_decode_stype(inst),
{
    let sinst = SType::new(inst);
    let op = sinst.opcode();
    if op == STORE_MATCH {
        let rs1 = sinst.rs1();
        let rs2 = sinst.rs2();
        let imm = sinst.imm();
        let f3 = sinst.funct3();
        if f3 == 0 {
            Ok(Instruction::Sb { rs1, rs2, imm })
        } else if f3 == 1 {
            Ok(Instruction::Sh { rs1, rs2, imm })
        } else if f3 == 2 {
            Ok(Instruction::Sw { rs1, rs2, imm })
        } else {
            Err(DecodeError::UnknownEncoding { inst, format: InstructionFormat::SType })
        }
    } else if op == FSTORE_MATCH {
        let rs1 = sinst.rs1();
        let rs2 = sinst.rs2();
        let imm = sinst.imm();
        let f3 = sinst.funct3();
        if f3 == 2 {
            Ok(Instruction::Fsw { rs1, rs2, imm })
        } else if f3 == 3 {
            Ok(Instruction::Fsd { rs1, rs2, imm })
        } else {
            Err(DecodeError::UnknownEncoding { inst, format: InstructionFormat::SType })
        }
    } else {
        Err(DecodeError::UnknownEncoding { inst, format: InstructionFormat::SType })
    }
}

/// Decodes any word whose opcode belongs to the U-type family.
pub fn decode_utype(inst: u32) -> (r: Result<Instruction, DecodeError>)
    ensures
        r == spec_decode_utype(inst),
{
    let uinst = UType::new(inst);
    let op = uinst.opcode();
    if op == LUI_MATCH {
        Ok(Instruction::Lui { rd: uinst.rd(), imm: uinst.imm() })
    } else if op == AUIPC_MATCH {
        Ok(Instruction::AuiPc { rd: uinst.rd(), imm: uinst.imm() })
    } else {
        Err(DecodeError::UnknownEncoding { inst, format: InstructionFormat::UType })
    }
}

/// Decodes a branch word, keyed by funct3 alone.
pub fn decode_btype(inst: u32) -> (r: Result<Instruction, DecodeError>)
    ensures
        r == spec_decode_btype(inst),
{
    let binst = BType::new(inst);
    let rs1 = binst.rs1();
    let rs2 = binst.rs2();
    let imm = binst.imm();
    let f3 = binst.funct3();
    if f3 == 0 {
        Ok(Instruction::Beq { rs1, rs2, imm })
    } else if f3 == 1 {
        Ok(Instruction::Bne { rs1, rs2, imm })
    } else if f3 == 4 {
        Ok(Instruction::Blt { rs1, rs2, imm })
    } else if f3 == 5 {
        Ok(Instruction::Bge { rs1, rs2, imm })
    } else if f3 == 6 {
        Ok(Instruction::Bltu { rs1, rs2, imm })
    } else if f3 == 7 {
        Ok(Instruction::Bgeu { rs1, rs2, imm })
    } else {
        Err(DecodeError::UnknownEncoding { inst, format: InstructionFormat::BType })
    }
}

/// Decodes a JAL word.
pub fn decode_jtype(inst: u32) -> (r: Result<Instruction, DecodeError>)
    ensures
        r == spec_decode_jtype(inst),
{
    let jinst = JType::new(inst);
    if jinst.opcode() == JAL_MATCH {
        Ok(Instruction::Jal { rd: jinst.rd(), imm: jinst.imm() })
    } else {
        Err(DecodeError::UnknownEncoding { inst, format: InstructionFormat::JType })
    }
}

/// Rejects a 16-bit compressed encoding: compressed decoding is recognized
/// but not implemented, so the failure is deterministic for every such word.
pub fn try_decode_compressed(inst: u32) -> (r: Result<Instruction, DecodeError>)
    ensures
        r == Err::<Instruction, DecodeError>(DecodeError::UnsupportedCompressed { inst }),
{
    Err(DecodeError::UnsupportedCompressed { inst })
}

/// All register-index extractors stay below 32, and the unsigned 12-bit
/// immediate below 4096, for every word.
proof fn lemma_field_bounds(w: u32)
    by (bit_vector)
    ensures
        spec_rd(w) < 32,
        spec_rs1(w) < 32,
        spec_rs2(w) < 32,
        spec_funct5(w) < 32,
        spec_uimm(w) < 4096,
{
}

/// Field range invariant: whatever word decodes successfully, the decoded
/// value's register indices lie in `[0, 31]` and its CSR address (when it
/// has one) in `[0, 4095]`.
pub proof fn lemma_decode_fields_valid(w: u32)
    ensures
        spec_try_decode(w) is Ok ==> spec_try_decode(w)->Ok_0.fields_valid(),
{
    lemma_field_bounds(w);
}

/// Compressed short-circuit: a word whose low two bits are 00, 01 or 10
/// never reaches the standard-format decoders; it always yields the
/// compressed-unsupported error, whatever its remaining bits.
pub proof fn lemma_compressed_short_circuit(w: u32)
    ensures
        spec_is_compressed(w) ==> spec_try_decode(w) == Err::<Instruction, DecodeError>(
            DecodeError::UnsupportedCompressed { inst: w },
        ),
{
}

/// Decodes a 32-bit instruction word: the compressed short-circuit, then
/// format classification, then the per-format decoder.  Total over all 2^32
/// words; the contract pins the exact result of every call.
pub fn try_decode(inst: u32) -> (r: Result<Instruction, DecodeError>)
    ensures
        r == spec_try_decode(inst),
        r is Ok ==> r->Ok_0.fields_valid(),
{
    proof {
        lemma_decode_fields_valid(inst);
    }
    if is_compressed(inst) {
        return try_decode_compressed(inst);
    }
    let fmt = match classify_format(inst) {
        Ok(f) => f,
        Err(e) => { return Err(e) },
    };
    match fmt {
        InstructionFormat::RType => decode_rtype(inst),
        InstructionFormat::IType => decode_itype(inst),
        InstructionFormat::SType => decode_stype(inst),
        InstructionFormat::UType => decode_utype(inst),
        InstructionFormat::BType => decode_btype(inst),
        InstructionFormat::JType => decode_jtype(inst),
    }
}

} // verus!
