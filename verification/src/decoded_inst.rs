//! The decoded-instruction model: one variant per supported mnemonic, with
//! register indices and immediates as plain unsigned words.  A value of this
//! type is produced once per decode call and has no tie back to the source
//! word.

use vstd::prelude::*;

verus! {

/// A fully decoded RV32 instruction.
///
/// Register operands (`rd`, `rs1`, `rs2`, `rs3`) are register indices in
/// `[0, 31]`; `imm` carries the format's immediate after sign extension
/// (two's complement in a `u32`), except for the CSR variants, where it is
/// the unsigned 12-bit CSR address.  Atomic variants carry the acquire and
/// release ordering bits.
#[derive(Debug, Clone, Copy, PartialEq, Eq, Structural)]
pub enum Instruction {
    Lb { rd: u32, rs1: u32, imm: u32 },
    Lh { rd: u32, rs1: u32, imm: u32 },
    Lw { rd: u32, rs1: u32, imm: u32 },
    Lbu { rd: u32, rs1: u32, imm: u32 },
    Lhu { rd: u32, rs1: u32, imm: u32 },
    Lwu { rd: u32, rs1: u32, imm: u32 },
    Addi { rd: u32, rs1: u32, imm: u32 },
    Slli { rd: u32, rs1: u32, imm: u32 },
    Slti { rd: u32, rs1: u32, imm: u32 },
    Sltiu { rd: u32, rs1: u32, imm: u32 },
    Xori { rd: u32, rs1: u32, imm: u32 },
    Srli { rd: u32, rs1: u32, imm: u32 },
    Srai { rd: u32, rs1: u32, imm: u32 },
    Ori { rd: u32, rs1: u32, imm: u32 },
    Andi { rd: u32, rs1: u32, imm: u32 },
    AuiPc { rd: u32, imm: u32 },
    Sb { rs1: u32, rs2: u32, imm: u32 },
    Sh { rs1: u32, rs2: u32, imm: u32 },
    Sw { rs1: u32, rs2: u32, imm: u32 },
    Add { rd: u32, rs1: u32, rs2: u32 },
    Sub { rd: u32, rs1: u32, rs2: u32 },
    Sll { rd: u32, rs1: u32, rs2: u32 },
    Slt { rd: u32, rs1: u32, rs2: u32 },
    Sltu { rd: u32, rs1: u32, rs2: u32 },
    Xor { rd: u32, rs1: u32, rs2: u32 },
    Srl { rd: u32, rs1: u32, rs2: u32 },
    Sra { rd: u32, rs1: u32, rs2: u32 },
    Or { rd: u32, rs1: u32, rs2: u32 },
    And { rd: u32, rs1: u32, rs2: u32 },
    Lui { rd: u32, imm: u32 },
    Beq { rs1: u32, rs2: u32, imm: u32 },
    Bne { rs1: u32, rs2: u32, imm: u32 },
    Blt { rs1: u32, rs2: u32, imm: u32 },
    Bge { rs1: u32, rs2: u32, imm: u32 },
    Bltu { rs1: u32, rs2: u32, imm: u32 },
    Bgeu { rs1: u32, rs2: u32, imm: u32 },
    Jalr { rd: u32, rs1: u32, imm: u32 },
    Jal { rd: u32, imm: u32 },
    ECall,
    EBreak,
    SRet,
    MRet,
    SFenceVma,
    CsrRw { rd: u32, rs1: u32, imm: u32 },
    CsrRs { rd: u32, rs1: u32, imm: u32 },
    CsrRc { rd: u32, rs1: u32, imm: u32 },
    CsrRwi { rd: u32, rs1: u32, imm: u32 },
    CsrRsi { rd: u32, rs1: u32, imm: u32 },
    CsrRci { rd: u32, rs1: u32, imm: u32 },
    Fence { pred: u32, succ: u32 },
    FenceI { pred: u32, succ: u32 },
    // F extension
    Flw { rd: u32, rs1: u32, imm: u32 },
    Fsw { rs1: u32, rs2: u32, imm: u32 },
    FmaddS { rd: u32, rs1: u32, rs2: u32, rs3: u32 },
    FmsubS { rd: u32, rs1: u32, rs2: u32, rs3: u32 },
    FnmaddS { rd: u32, rs1: u32, rs2: u32, rs3: u32 },
    FnmsubS { rd: u32, rs1: u32, rs2: u32, rs3: u32 },
    FaddS { rd: u32, rs1: u32, rs2: u32 },
    FsubS { rd: u32, rs1: u32, rs2: u32 },
    FmulS { rd: u32, rs1: u32, rs2: u32 },
    FdivS { rd: u32, rs1: u32, rs2: u32 },
    FsqrtS { rd: u32, rs1: u32 },
    FsgnjS { rd: u32, rs1: u32, rs2: u32 },
    FsgnjnS { rd: u32, rs1: u32, rs2: u32 },
    FsgnjxS { rd: u32, rs1: u32, rs2: u32 },
    FminS { rd: u32, rs1: u32, rs2: u32 },
    FmaxS { rd: u32, rs1: u32, rs2: u32 },
    FcvtSW { rd: u32, rs1: u32 },
    FcvtSWU { rd: u32, rs1: u32 },
    FcvtWS { rd: u32, rs1: u32 },
    FcvtWUS { rd: u32, rs1: u32 },
    FcvtWD { rd: u32, rs1: u32 },
    FcvtWUD { rd: u32, rs1: u32 },
    FcvtDW { rd: u32, rs1: u32 },
    FcvtDWU { rd: u32, rs1: u32 },
    FmvXW { rd: u32, rs1: u32 },
    FmvWX { rd: u32, rs1: u32 },
    FeqS { rd: u32, rs1: u32, rs2: u32 },
    FltS { rd: u32, rs1: u32, rs2: u32 },
    FleS { rd: u32, rs1: u32, rs2: u32 },
    FClassS { rd: u32, rs1: u32 },
    // D extension
    FmaddD { rd: u32, rs1: u32, rs2: u32, rs3: u32 },
    FmsubD { rd: u32, rs1: u32, rs2: u32, rs3: u32 },
    FnmaddD { rd: u32, rs1: u32, rs2: u32, rs3: u32 },
    FnmsubD { rd: u32, rs1: u32, rs2: u32, rs3: u32 },
    Fld { rd: u32, rs1: u32, imm: u32 },
    Fsd { rs1: u32, rs2: u32, imm: u32 },
    FcvtSD { rd: u32, rs1: u32 },
    FcvtDS { rd: u32, rs1: u32 },
    FaddD { rd: u32, rs1: u32, rs2: u32 },
    FsubD { rd: u32, rs1: u32, rs2: u32 },
    FmulD { rd: u32, rs1: u32, rs2: u32 },
    FdivD { rd: u32, rs1: u32, rs2: u32 },
    FsqrtD { rd: u32, rs1: u32 },
    FsgnjD { rd: u32, rs1: u32, rs2: u32 },
    FsgnjnD { rd: u32, rs1: u32, rs2: u32 },
    FsgnjxD { rd: u32, rs1: u32, rs2: u32 },
    FminD { rd: u32, rs1: u32, rs2: u32 },
    FmaxD { rd: u32, rs1: u32, rs2: u32 },
    FeqD { rd: u32, rs1: u32, rs2: u32 },
    FltD { rd: u32, rs1: u32, rs2: u32 },
    FleD { rd: u32, rs1: u32, rs2: u32 },
    FClassD { rd: u32, rs1: u32 },
    // M extension
    Mul { rd: u32, rs1: u32, rs2: u32 },
    Mulh { rd: u32, rs1: u32, rs2: u32 },
    Mulsu { rd: u32, rs1: u32, rs2: u32 },
    Mulu { rd: u32, rs1: u32, rs2: u32 },
    Div { rd: u32, rs1: u32, rs2: u32 },
    Divu { rd: u32, rs1: u32, rs2: u32 },
    Rem { rd: u32, rs1: u32, rs2: u32 },
    Remu { rd: u32, rs1: u32, rs2: u32 },
    // A extension
    LrW { rd: u32, rs1: u32, rs2: u32, rl: bool, aq: bool },
    ScW { rd: u32, rs1: u32, rs2: u32, rl: bool, aq: bool },
    AmoswapW { rd: u32, rs1: u32, rs2: u32, rl: bool, aq: bool },
    AmoaddW { rd: u32, rs1: u32, rs2: u32, rl: bool, aq: bool },
    AmoandW { rd: u32, rs1: u32, rs2: u32, rl: bool, aq: bool },
    AmoorW { rd: u32, rs1: u32, rs2: u32, rl: bool, aq: bool },
    AmoxorW { rd: u32, rs1: u32, rs2: u32, rl: bool, aq: bool },
    AmomaxW { rd: u32, rs1: u32, rs2: u32, rl: bool, aq: bool },
    AmominW { rd: u32, rs1: u32, rs2: u32, rl: bool, aq: bool },
    // Compressed instructions
    CAddi4Spn { rd: u32, nzuimm: u32 },
    CNop,
    CSlli { rd: u32, rs1: u32, shamt: u32 },
}

impl Instruction {
    /// Every register-index field lies in `[0, 31]` and a CSR address field
    /// lies in `[0, 4095]`.  Decoding only ever produces such values, and the
    /// renderer requires them.
    pub open spec fn fields_valid(self) -> bool {
        match self {
            Instruction::Lb { rd, rs1, .. }
            | Instruction::Lh { rd, rs1, .. }
            | Instruction::Lw { rd, rs1, .. }
            | Instruction::Lbu { rd, rs1, .. }
            | Instruction::Lhu { rd, rs1, .. }
            | Instruction::Lwu { rd, rs1, .. }
            | Instruction::Addi { rd, rs1, .. }
            | Instruction::Slli { rd, rs1, .. }
            | Instruction::Slti { rd, rs1, .. }
            | Instruction::Sltiu { rd, rs1, .. }
            | Instruction::Xori { rd, rs1, .. }
            | Instruction::Srli { rd, rs1, .. }
            | Instruction::Srai { rd, rs1, .. }
            | Instruction::Ori { rd, rs1, .. }
            | Instruction::Andi { rd, rs1, .. }
            | Instruction::Jalr { rd, rs1, .. }
            | Instruction::Flw { rd, rs1, .. }
            | Instruction::Fld { rd, rs1, .. } => rd < 32 && rs1 < 32,
            Instruction::CsrRw { rd, rs1, imm }
            | Instruction::CsrRs { rd, rs1, imm }
            | Instruction::CsrRc { rd, rs1, imm }
            | Instruction::CsrRwi { rd, rs1, imm }
            | Instruction::CsrRsi { rd, rs1, imm }
            | Instruction::CsrRci { rd, rs1, imm } => rd < 32 && rs1 < 32 && imm < 4096,
            Instruction::AuiPc { rd, .. }
            | Instruction::Lui { rd, .. }
            | Instruction::Jal { rd, .. }
            | Instruction::CAddi4Spn { rd, .. } => rd < 32,
            Instruction::Sb { rs1, rs2, .. }
            | Instruction::Sh { rs1, rs2, .. }
            | Instruction::Sw { rs1, rs2, .. }
            | Instruction::Fsw { rs1, rs2, .. }
            | Instruction::Fsd { rs1, rs2, .. }
            | Instruction::Beq { rs1, rs2, .. }
            | Instruction::Bne { rs1, rs2, .. }
            | Instruction::Blt { rs1, rs2, .. }
            | Instruction::Bge { rs1, rs2, .. }
            | Instruction::Bltu { rs1, rs2, .. }
            | Instruction::Bgeu { rs1, rs2, .. } => rs1 < 32 && rs2 < 32,
            Instruction::Add { rd, rs1, rs2 }
            | Instruction::Sub { rd, rs1, rs2 }
            | Instruction::Sll { rd, rs1, rs2 }
            | Instruction::Slt { rd, rs1, rs2 }
            | Instruction::Sltu { rd, rs1, rs2 }
            | Instruction::Xor { rd, rs1, rs2 }
            | Instruction::Srl { rd, rs1, rs2 }
            | Instruction::Sra { rd, rs1, rs2 }
            | Instruction::Or { rd, rs1, rs2 }
            | Instruction::And { rd, rs1, rs2 }
            | Instruction::Mul { rd, rs1, rs2 }
            | Instruction::Mulh { rd, rs1, rs2 }
            | Instruction::Mulsu { rd, rs1, rs2 }
            | Instruction::Mulu { rd, rs1, rs2 }
            | Instruction::Div { rd, rs1, rs2 }
            | Instruction::Divu { rd, rs1, rs2 }
            | Instruction::Rem { rd, rs1, rs2 }
            | Instruction::Remu { rd, rs1, rs2 }
            | Instruction::FaddS { rd, rs1, rs2 }
            | Instruction::FsubS { rd, rs1, rs2 }
            | Instruction::FmulS { rd, rs1, rs2 }
            | Instruction::FdivS { rd, rs1, rs2 }
            | Instruction::FsgnjS { rd, rs1, rs2 }
            | Instruction::FsgnjnS { rd, rs1, rs2 }
            | Instruction::FsgnjxS { rd, rs1, rs2 }
            | Instruction::FminS { rd, rs1, rs2 }
            | Instruction::FmaxS { rd, rs1, rs2 }
            | Instruction::FeqS { rd, rs1, rs2 }
            | Instruction::FltS { rd, rs1, rs2 }
            | Instruction::FleS { rd, rs1, rs2 }
            | Instruction::FaddD { rd, rs1, rs2 }
            | Instruction::FsubD { rd, rs1, rs2 }
            | Instruction::FmulD { rd, rs1, rs2 }
            | Instruction::FdivD { rd, rs1, rs2 }
            | Instruction::FsgnjD { rd, rs1, rs2 }
            | Instruction::FsgnjnD { rd, rs1, rs2 }
            | Instruction::FsgnjxD { rd, rs1, rs2 }
            | Instruction::FminD { rd, rs1, rs2 }
            | Instruction::FmaxD { rd, rs1, rs2 }
            | Instruction::FeqD { rd, rs1, rs2 }
            | Instruction::FltD { rd, rs1, rs2 }
            | Instruction::FleD { rd, rs1, rs2 } => rd < 32 && rs1 < 32 && rs2 < 32,
            Instruction::FsqrtS { rd, rs1 }
            | Instruction::FcvtSW { rd, rs1 }
            | Instruction::FcvtSWU { rd, rs1 }
            | Instruction::FcvtWS { rd, rs1 }
            | Instruction::FcvtWUS { rd, rs1 }
            | Instruction::FcvtWD { rd, rs1 }
            | Instruction::FcvtWUD { rd, rs1 }
            | Instruction::FcvtDW { rd, rs1 }
            | Instruction::FcvtDWU { rd, rs1 }
            | Instruction::FmvXW { rd, rs1 }
            | Instruction::FmvWX { rd, rs1 }
            | Instruction::FClassS { rd, rs1 }
            | Instruction::FsqrtD { rd, rs1 }
            | Instruction::FcvtSD { rd, rs1 }
            | Instruction::FcvtDS { rd, rs1 }
            | Instruction::FClassD { rd, rs1 } => rd < 32 && rs1 < 32,
            Instruction::FmaddS { rd, rs1, rs2, rs3 }
            | Instruction::FmsubS { rd, rs1, rs2, rs3 }
            | Instruction::FnmaddS { rd, rs1, rs2, rs3 }
            | Instruction::FnmsubS { rd, rs1, rs2, rs3 }
            | Instruction::FmaddD { rd, rs1, rs2, rs3 }
            | Instruction::FmsubD { rd, rs1, rs2, rs3 }
            | Instruction::FnmaddD { rd, rs1, rs2, rs3 }
            | Instruction::FnmsubD { rd, rs1, rs2, rs3 } => rd < 32 && rs1 < 32 && rs2 < 32 && rs3
                < 32,
            Instruction::LrW { rd, rs1, rs2, .. }
            | Instruction::ScW { rd, rs1, rs2, .. }
            | Instruction::AmoswapW { rd, rs1, rs2, .. }
            | Instruction::AmoaddW { rd, rs1, rs2, .. }
            | Instruction::AmoandW { rd, rs1, rs2, .. }
            | Instruction::AmoorW { rd, rs1, rs2, .. }
            | Instruction::AmoxorW { rd, rs1, rs2, .. }
            | Instruction::AmomaxW { rd, rs1, rs2, .. }
            | Instruction::AmominW { rd, rs1, rs2, .. } => rd < 32 && rs1 < 32 && rs2 < 32,
            Instruction::CSlli { rd, rs1, .. } => rd < 32 && rs1 < 32,
            Instruction::ECall
            | Instruction::EBreak
            | Instruction::SRet
            | Instruction::MRet
            | Instruction::SFenceVma
            | Instruction::Fence { .. }
            | Instruction::FenceI { .. }
            | Instruction::CNop => true,
        }
    }
}

} // verus!
