//! The six standard RV32 instruction formats, as read-only views over a raw
//! 32-bit word, together with the opcode constants that select among them and
//! the detection of 16-bit compressed encodings.

use vstd::prelude::*;

verus! {

/// Opcode of the integer load instructions (LB/LH/LW/LBU/LHU).
pub const LOAD_MATCH: u32 = 3;
/// Opcode of the floating-point load instructions (FLW/FLD).
pub const FLOAD_MATCH: u32 = 7;
/// Opcode of FENCE and FENCE.I.
pub const FENCE_MATCH: u32 = 15;
/// Opcode of the immediate arithmetic instructions (ADDI and friends).
pub const ARITHMETIC_IMMEDIATE_MATCH: u32 = 19;
/// Opcode of AUIPC.
pub const AUIPC_MATCH: u32 = 23;
/// Opcode of the integer store instructions (SB/SH/SW).
pub const STORE_MATCH: u32 = 35;
/// Opcode of the floating-point store instructions (FSW/FSD).
pub const FSTORE_MATCH: u32 = 39;
/// Opcode of the A-extension atomic instructions.
pub const ATOMIC_MATCH: u32 = 47;
/// Opcode of the register arithmetic instructions (ADD and friends, M extension).
pub const ARITHMETIC_REGISTER_MATCH: u32 = 51;
/// Opcode of LUI.
pub const LUI_MATCH: u32 = 55;
/// Opcode of FMADD.D.
pub const FMADD_MATCH: u32 = 67;
/// Opcode of FMSUB.D.
pub const FMSUB_MATCH: u32 = 71;
/// Opcode of FNMSUB.D.
pub const FNMSUB_MATCH: u32 = 75;
/// Opcode of FNMADD.D.
pub const FNMADD_MATCH: u32 = 79;
/// Opcode of the one-opcode floating-point operation family.
pub const FLOATING_POINT_MATCH: u32 = 83;
/// Opcode of the conditional branch instructions.
pub const BRANCH_MATCH: u32 = 99;
/// Opcode of JALR.
pub const JALR_MATCH: u32 = 103;
/// Opcode of JAL.
pub const JAL_MATCH: u32 = 111;
/// Opcode of the CSR and system instructions.
pub const CSR_MATCH: u32 = 115;

/// The six standard RV32 instruction layouts.
#[derive(Debug, Clone, Copy, PartialEq, Eq, Structural)]
pub enum InstructionFormat {
    RType,
    IType,
    SType,
    UType,
    BType,
    JType,
}

/// Low 7 bits: the opcode.
pub open spec fn spec_opcode(w: u32) -> u32 {
    w & 0x7f
}

/// Bits 11:7: the destination register index.
pub open spec fn spec_rd(w: u32) -> u32 {
    (w >> 7) & 0x1f
}

/// Bits 14:12: the funct3 discriminant.
pub open spec fn spec_funct3(w: u32) -> u32 {
    (w >> 12) & 0x7
}

/// Bits 19:15: the first source register index.
pub open spec fn spec_rs1(w: u32) -> u32 {
    (w >> 15) & 0x1f
}

/// Bits 24:20: the second source register index.
pub open spec fn spec_rs2(w: u32) -> u32 {
    (w >> 20) & 0x1f
}

/// Bits 31:25: the funct7 discriminant.
pub open spec fn spec_funct7(w: u32) -> u32 {
    (w >> 25) & 0x7f
}

/// Bits 31:27: the funct5 discriminant (top five bits of funct7), used by the
/// atomic and floating-point instruction families.
pub open spec fn spec_funct5(w: u32) -> u32 {
    (w >> 27) & 0x1f
}

/// Bit 26 of the word: the acquire ordering bit of an atomic instruction
/// (bit 1 of funct7).
pub open spec fn spec_aq(w: u32) -> bool {
    (w >> 26) & 1 == 1
}

/// Bit 25 of the word: the release ordering bit of an atomic instruction
/// (bit 0 of funct7).
pub open spec fn spec_rl(w: u32) -> bool {
    (w >> 25) & 1 == 1
}

/// Low 2 bits of funct7: the floating-point precision selector.
pub open spec fn spec_fp_fmt(w: u32) -> u32 {
    (w >> 25) & 0x3
}

/// Bits 31:20 as an unsigned 12-bit value: the CSR address or the raw
/// I-type immediate before sign extension.
pub open spec fn spec_uimm(w: u32) -> u32 {
    (w >> 20) & 0xfff
}

/// The I-type immediate: bits 31:20, sign-extended from bit 11.
pub open spec fn spec_imm_i(w: u32) -> u32 {
    if (w >> 31) & 1 == 1 {
        ((w >> 20) & 0xfff) | 0xffff_f000
    } else {
        (w >> 20) & 0xfff
    }
}

/// The S-type immediate: bits 31:25 over bits 11:7, sign-extended from bit 11.
pub open spec fn spec_imm_s(w: u32) -> u32 {
    if (w >> 31) & 1 == 1 {
        ((((w >> 25) & 0x7f) << 5) | ((w >> 7) & 0x1f)) | 0xffff_f000
    } else {
        (((w >> 25) & 0x7f) << 5) | ((w >> 7) & 0x1f)
    }
}

/// The B-type immediate: imm[12|10:5] in bits 31:25 and imm[4:1|11] in bits
/// 11:7, reassembled with a forced zero LSB and sign-extended from bit 12.
pub open spec fn spec_imm_b(w: u32) -> u32 {
    if (w >> 31) & 1 == 1 {
        ((((w >> 31) & 1) << 12) | (((w >> 7) & 1) << 11) | (((w >> 25) & 0x3f) << 5) | (((w >> 8)
            & 0xf) << 1)) | 0xffff_e000
    } else {
        (((w >> 31) & 1) << 12) | (((w >> 7) & 1) << 11) | (((w >> 25) & 0x3f) << 5) | (((w >> 8)
            & 0xf) << 1)
    }
}

/// The U-type immediate: the top 20 bits of the word, kept in place in bit
/// positions 31:12 (the literal upper bits, not right-shifted).
pub open spec fn spec_imm_u(w: u32) -> u32 {
    w & 0xffff_f000
}

/// The J-type immediate: imm[20|10:1|11|19:12] in bits 31:12, reassembled with
/// a forced zero LSB and sign-extended from bit 20.
pub open spec fn spec_imm_j(w: u32) -> u32 {
    if (w >> 31) & 1 == 1 {
        ((((w >> 31) & 1) << 20) | (((w >> 12) & 0xff) << 12) | (((w >> 20) & 1) << 11) | (((w
            >> 21) & 0x3ff) << 1)) | 0xffe0_0000
    } else {
        (((w >> 31) & 1) << 20) | (((w >> 12) & 0xff) << 12) | (((w >> 20) & 1) << 11) | (((w >> 21)
            & 0x3ff) << 1)
    }
}

/// A word is a 16-bit compressed encoding when its low two bits are not 0b11.
pub open spec fn spec_is_compressed(inst: u32) -> bool {
    inst & 0x3 != 0x3
}

/// Tests whether the word is a 16-bit compressed encoding (low two bits
/// 00, 01 or 10 rather than the 11 of every standard 32-bit encoding).
pub fn is_compressed(inst: u32) -> (r: bool)
    ensures
        r == spec_is_compressed(inst),
{
    inst & 0x3 != 0x3
}

/// R-type view: opcode | rd | funct3 | rs1 | rs2 | funct7.
pub struct RType(pub u32);

impl RType {
    pub fn new(inst: u32) -> (r: Self)
        ensures
            r.0 == inst,
    {
        RType(inst)
    }

    pub fn opcode(&self) -> (r: u32)
        ensures
            r == spec_opcode(self.0),
    {
        self.0 & 0x7f
    }

    pub fn rd(&self) -> (r: u32)
        ensures
            r == spec_rd(self.0),
    {
        (self.0 >> 7) & 0x1f
    }

    pub fn funct3(&self) -> (r: u32)
        ensures
            r == spec_funct3(self.0),
    {
        (self.0 >> 12) & 0x7
    }

    pub fn rs1(&self) -> (r: u32)
        ensures
            r == spec_rs1(self.0),
    {
        (self.0 >> 15) & 0x1f
    }

    pub fn rs2(&self) -> (r: u32)
        ensures
            r == spec_rs2(self.0),
    {
        (self.0 >> 20) & 0x1f
    }

    pub fn funct7(&self) -> (r: u32)
        ensures
            r == spec_funct7(self.0),
    {
        (self.0 >> 25) & 0x7f
    }

    /// Top five bits of funct7.
    pub fn funct5(&self) -> (r: u32)
        ensures
            r == spec_funct5(self.0),
    {
        (self.0 >> 27) & 0x1f
    }

    /// Acquire bit of an atomic instruction.
    pub fn aq(&self) -> (r: bool)
        ensures
            r == spec_aq(self.0),
    {
        (self.0 >> 26) & 1 == 1
    }

    /// Release bit of an atomic instruction.
    pub fn rl(&self) -> (r: bool)
        ensures
            r == spec_rl(self.0),
    {
        (self.0 >> 25) & 1 == 1
    }

    /// Floating-point precision selector: low two bits of funct7.
    pub fn fp_fmt(&self) -> (r: u32)
        ensures
            r == spec_fp_fmt(self.0),
    {
        (self.0 >> 25) & 0x3
    }
}

/// I-type view: opcode | rd | funct3 | rs1 | imm[11:0].
pub struct IType(pub u32);

impl IType {
    pub fn new(inst: u32) -> (r: Self)
        ensures
            r.0 == inst,
    {
        IType(inst)
    }

    pub fn opcode(&self) -> (r: u32)
        ensures
            r == spec_opcode(self.0),
    {
        self.0 & 0x7f
    }

    pub fn rd(&self) -> (r: u32)
        ensures
            r == spec_rd(self.0),
    {
        (self.0 >> 7) & 0x1f
    }

    pub fn funct3(&self) -> (r: u32)
        ensures
            r == spec_funct3(self.0),
    {
        (self.0 >> 12) & 0x7
    }

    pub fn rs1(&self) -> (r: u32)
        ensures
            r == spec_rs1(self.0),
    {
        (self.0 >> 15) & 0x1f
    }

    /// The unsigned 12-bit immediate, as CSR operand decoding needs it.
    pub fn uimm(&self) -> (r: u32)
        ensures
            r == spec_uimm(self.0),
    {
        (self.0 >> 20) & 0xfff
    }

    /// The immediate, sign-extended from bit 11 to the full word.
    pub fn imm(&self) -> (r: u32)
        ensures
            r == spec_imm_i(self.0),
    {
        if (self.0 >> 31) & 1 == 1 {
            ((self.0 >> 20) & 0xfff) | 0xffff_f000
        } else {
            (self.0 >> 20) & 0xfff
        }
    }
}

/// S-type view: opcode | imm[4:0] | funct3 | rs1 | rs2 | imm[11:5].
pub struct SType(pub u32);

impl SType {
    pub fn new(inst: u32) -> (r: Self)
        ensures
            r.0 == inst,
    {
        SType(inst)
    }

    pub fn opcode(&self) -> (r: u32)
        ensures
            r == spec_opcode(self.0),
    {
        self.0 & 0x7f
    }

    pub fn funct3(&self) -> (r: u32)
        ensures
            r == spec_funct3(self.0),
    {
        (self.0 >> 12) & 0x7
    }

    pub fn rs1(&self) -> (r: u32)
        ensures
            r == spec_rs1(self.0),
    {
        (self.0 >> 15) & 0x1f
    }

    pub fn rs2(&self) -> (r: u32)
        ensures
            r == spec_rs2(self.0),
    {
        (self.0 >> 20) & 0x1f
    }

    /// The store offset, reassembled from its two fields and sign-extended
    /// from bit 11.
    pub fn imm(&self) -> (r: u32)
        ensures
            r == spec_imm_s(self.0),
    {
        if (self.0 >> 31) & 1 == 1 {
            ((((self.0 >> 25) & 0x7f) << 5) | ((self.0 >> 7) & 0x1f)) | 0xffff_f000
        } else {
            (((self.0 >> 25) & 0x7f) << 5) | ((self.0 >> 7) & 0x1f)
        }
    }
}

/// U-type view: opcode | rd | imm[31:12].
pub struct UType(pub u32);

impl UType {
    pub fn new(inst: u32) -> (r: Self)
        ensures
            r.0 == inst,
    {
        UType(inst)
    }

    pub fn opcode(&self) -> (r: u32)
        ensures
            r == spec_opcode(self.0),
    {
        self.0 & 0x7f
    }

    pub fn rd(&self) -> (r: u32)
        ensures
            r == spec_rd(self.0),
    {
        (self.0 >> 7) & 0x1f
    }

    /// The upper immediate, kept in place in bit positions 31:12.
    pub fn imm(&self) -> (r: u32)
        ensures
            r == spec_imm_u(self.0),
    {
        self.0 & 0xffff_f000
    }
}

/// B-type view: opcode | imm[11] imm[4:1] | funct3 | rs1 | rs2 | imm[10:5] imm[12].
pub struct BType(pub u32);

impl BType {
    pub fn new(inst: u32) -> (r: Self)
        ensures
            r.0 == inst,
    {
        BType(inst)
    }

    pub fn opcode(&self) -> (r: u32)
        ensures
            r == spec_opcode(self.0),
    {
        self.0 & 0x7f
    }

    pub fn funct3(&self) -> (r: u32)
        ensures
            r == spec_funct3(self.0),
    {
        (self.0 >> 12) & 0x7
    }

    pub fn rs1(&self) -> (r: u32)
        ensures
            r == spec_rs1(self.0),
    {
        (self.0 >> 15) & 0x1f
    }

    pub fn rs2(&self) -> (r: u32)
        ensures
            r == spec_rs2(self.0),
    {
        (self.0 >> 20) & 0x1f
    }

    /// The branch offset, reassembled from its four fields with a forced zero
    /// LSB and sign-extended from bit 12.
    pub fn imm(&self) -> (r: u32)
        ensures
            r == spec_imm_b(self.0),
    {
        let assembled: u32 = (((self.0 >> 31) & 1) << 12) | (((self.0 >> 7) & 1) << 11) | (((self.0
            >> 25) & 0x3f) << 5) | (((self.0 >> 8) & 0xf) << 1);
        if (self.0 >> 31) & 1 == 1 {
            assembled | 0xffff_e000
        } else {
            assembled
        }
    }
}

/// J-type view: opcode | rd | imm[20|10:1|11|19:12].
pub struct JType(pub u32);

impl JType {
    pub fn new(inst: u32) -> (r: Self)
        ensures
            r.0 == inst,
    {
        JType(inst)
    }

    pub fn opcode(&self) -> (r: u32)
        ensures
            r == spec_opcode(self.0),
    {
        self.0 & 0x7f
    }

    pub fn rd(&self) -> (r: u32)
        ensures
            r == spec_rd(self.0),
    {
        (self.0 >> 7) & 0x1f
    }

    /// The jump offset, reassembled from its four fields with a forced zero
    /// LSB and sign-extended from bit 20.
    pub fn imm(&self) -> (r: u32)
        ensures
            r == spec_imm_j(self.0),
    {
        let assembled: u32 = (((self.0 >> 31) & 1) << 20) | (((self.0 >> 12) & 0xff) << 12) | (((
        self.0 >> 20) & 1) << 11) | (((self.0 >> 21) & 0x3ff) << 1);
        if (self.0 >> 31) & 1 == 1 {
            assembled | 0xffe0_0000
        } else {
            assembled
        }
    }
}

/// Bits 1:0 of a compressed half-word: its opcode.
pub open spec fn spec_c_opcode(inst: u16) -> u16 {
    inst & 0x3
}

/// Bits 6:2 of a compressed half-word: the rs2 field of the CR format.
pub open spec fn spec_c_rs2(inst: u16) -> u16 {
    (inst >> 2) & 0x1f
}

/// Bits 11:7 of a compressed half-word: the rs1 field of the CR format.
pub open spec fn spec_c_rs1(inst: u16) -> u16 {
    (inst >> 7) & 0x1f
}

/// Bits 15:12 of a compressed half-word: the funct4 field of the CR format.
pub open spec fn spec_c_funct4(inst: u16) -> u16 {
    (inst >> 12) & 0xf
}

/// CR-format view over a 16-bit compressed half-word:
/// opcode | rs2 | rs1 | funct4.  The detection seam for the (unimplemented)
/// compressed decoder.
pub struct CRType(pub u16);

impl CRType {
    pub fn new(inst: u16) -> (r: Self)
        ensures
            r.0 == inst,
    {
        CRType(inst)
    }

    pub fn opcode(&self) -> (r: u16)
        ensures
            r == spec_c_opcode(self.0),
    {
        self.0 & 0x3
    }

    pub fn rs2(&self) -> (r: u16)
        ensures
            r == spec_c_rs2(self.0),
    {
        (self.0 >> 2) & 0x1f
    }

    pub fn rs1(&self) -> (r: u16)
        ensures
            r == spec_c_rs1(self.0),
    {
        (self.0 >> 7) & 0x1f
    }

    pub fn funct4(&self) -> (r: u16)
        ensures
            r == spec_c_funct4(self.0),
    {
        (self.0 >> 12) & 0xf
    }
}

} // verus!
