//! The disassembly renderer: canonical assembler text for a decoded
//! instruction, given the fixed ABI register-name table and a caller-supplied
//! CSR-address-to-name lookup.
//!
//! Rendering is a pure function of the decoded value and the lookup table; it
//! never fails.  A CSR address without a known name degrades to a hexadecimal
//! literal.

use crate::decoded_inst::Instruction;
use crate::numfmt::{spec_hex_lit, spec_signed_dec, u32_hex_lit, u32_signed_dec};
use vstd::prelude::*;

verus! {

/// The ABI name of register `i`, for `i` in `[0, 31]`.
pub open spec fn spec_reg_name(i: int) -> Seq<char> {
    if i == 0 {
        "zero"@
    } else if i == 1 {
        "ra"@
    } else if i == 2 {
        "sp"@
    } else if i == 3 {
        "gp"@
    } else if i == 4 {
        "tp"@
    } else if i == 5 {
        "t0"@
    } else if i == 6 {
        "t1"@
    } else if i == 7 {
        "t2"@
    } else if i == 8 {
        "s0"@
    } else if i == 9 {
        "s1"@
    } else if i == 10 {
        "a0"@
    } else if i == 11 {
        "a1"@
    } else if i == 12 {
        "a2"@
    } else if i == 13 {
        "a3"@
    } else if i == 14 {
        "a4"@
    } else if i == 15 {
        "a5"@
    } else if i == 16 {
        "a6"@
    } else if i == 17 {
        "a7"@
    } else if i == 18 {
        "s2"@
    } else if i == 19 {
        "s3"@
    } else if i == 20 {
        "s4"@
    } else if i == 21 {
        "s5"@
    } else if i == 22 {
        "s6"@
    } else if i == 23 {
        "s7"@
    } else if i == 24 {
        "s8"@
    } else if i == 25 {
        "s9"@
    } else if i == 26 {
        "s10"@
    } else if i == 27 {
        "s11"@
    } else if i == 28 {
        "t3"@
    } else if i == 29 {
        "t4"@
    } else if i == 30 {
        "t5"@
    } else {
        "t6"@
    }
}

/// The ABI name of register `i`.
pub fn reg_str(i: u32) -> (s: &'static str)
    requires
        i < 32,
    ensures
        s@ == spec_reg_name(i as int),
{
    if i == 0 {
        "zero"
    } else if i == 1 {
        "ra"
    } else if i == 2 {
        "sp"
    } else if i == 3 {
        "gp"
    } else if i == 4 {
        "tp"
    } else if i == 5 {
        "t0"
    } else if i == 6 {
        "t1"
    } else if i == 7 {
        "t2"
    } else if i == 8 {
        "s0"
    } else if i == 9 {
        "s1"
    } else if i == 10 {
        "a0"
    } else if i == 11 {
        "a1"
    } else if i == 12 {
        "a2"
    } else if i == 13 {
        "a3"
    } else if i == 14 {
        "a4"
    } else if i == 15 {
        "a5"
    } else if i == 16 {
        "a6"
    } else if i == 17 {
        "a7"
    } else if i == 18 {
        "s2"
    } else if i == 19 {
        "s3"
    } else if i == 20 {
        "s4"
    } else if i == 21 {
        "s5"
    } else if i == 22 {
        "s6"
    } else if i == 23 {
        "s7"
    } else if i == 24 {
        "s8"
    } else if i == 25 {
        "s9"
    } else if i == 26 {
        "s10"
    } else if i == 27 {
        "s11"
    } else if i == 28 {
        "t3"
    } else if i == 29 {
        "t4"
    } else if i == 30 {
        "t5"
    } else {
        "t6"
    }
}

/// The first name paired with `addr`, scanning the table front to back.
pub open spec fn spec_csr_lookup(t: Seq<(u32, Seq<char>)>, addr: u32) -> Option<Seq<char>>
    decreases t.len(),
{
    if t.len() == 0 {
        None
    } else if t[0].0 == addr {
        Some(t[0].1)
    } else {
        spec_csr_lookup(t.drop_first(), addr)
    }
}

/// The text a CSR operand renders as: the table's name for the address, or
/// its hexadecimal literal when the table has none.
pub open spec fn spec_csr_operand(t: Seq<(u32, Seq<char>)>, addr: u32) -> Seq<char> {
    match spec_csr_lookup(t, addr) {
        Some(name) => name,
        None => spec_hex_lit(addr as nat),
    }
}

/// A CSR-address-to-name table, as the renderer consumes it: a sequence of
/// (address, canonical name) pairs searched front to back.
pub struct CsrNameTable {
    entries: Vec<(u32, String)>,
}

impl View for CsrNameTable {
    type V = Seq<(u32, Seq<char>)>;

    closed spec fn view(&self) -> Seq<(u32, Seq<char>)> {
        Seq::new(self.entries@.len(), |i: int| (self.entries@[i].0, self.entries@[i].1@))
    }
}

impl CsrNameTable {
    /// An empty table: every lookup falls back to the hexadecimal literal.
    pub fn new() -> (t: Self)
        ensures
            t@ == Seq::<(u32, Seq<char>)>::empty(),
    {
        let t = CsrNameTable { entries: Vec::new() };
        proof {
            assert(t@ =~= Seq::<(u32, Seq<char>)>::empty());
        }
        t
    }

    /// Appends one (address, name) pair.
    pub fn add(&mut self, addr: u32, name: String)
        ensures
            final(self)@ == old(self)@.push((addr, name@)),
    {
        let ghost before = self@;
        let ghost pushed_name = name@;
        self.entries.push((addr, name));
        proof {
            assert(self@ =~= before.push((addr, pushed_name)));
        }
    }

    /// Scans the entries from `i` on for `addr`.
    fn lookup_from(&self, i: usize, addr: u32) -> (r: Option<String>)
        requires
            i <= self.entries.len(),
        ensures
            match r {
                Some(s) => spec_csr_lookup(self@.skip(i as int), addr) == Some(s@),
                None => spec_csr_lookup(self@.skip(i as int), addr) is None,
            },
        decreases self.entries.len() - i,
    {
        proof {
            assert(self@.len() == self.entries@.len());
        }
        if i == self.entries.len() {
            proof {
                assert(self@.skip(i as int) =~= Seq::<(u32, Seq<char>)>::empty());
            }
            None
        } else {
            proof {
                assert(self@.skip(i as int)[0] == self@[i as int]);
                assert(self@.skip(i as int).drop_first() =~= self@.skip(i as int + 1));
            }
            let entry = &self.entries[i];
            if entry.0 == addr {
                Some(entry.1.clone())
            } else {
                self.lookup_from(i + 1, addr)
            }
        }
    }

    /// The canonical name of the CSR at `addr`, when the table holds one.
    pub fn lookup(&self, addr: u32) -> (r: Option<String>)
        ensures
            match r {
                Some(s) => spec_csr_lookup(self@, addr) == Some(s@),
                None => spec_csr_lookup(self@, addr) is None,
            },
    {
        proof {
            assert(self@.skip(0) =~= self@);
        }
        self.lookup_from(0, addr)
    }
}

/// `m rd, rs1, rs2` over the register names.
pub open spec fn spec_text_reg3(m: Seq<char>, rd: u32, rs1: u32, rs2: u32) -> Seq<char> {
    m + " "@ + spec_reg_name(rd as int) + ", "@ + spec_reg_name(rs1 as int) + ", "@ + spec_reg_name(
        rs2 as int,
    )
}

/// `m rd, rs1, rs2, rs3` over the register names.
pub open spec fn spec_text_reg4(m: Seq<char>, rd: u32, rs1: u32, rs2: u32, rs3: u32) -> Seq<char> {
    m + " "@ + spec_reg_name(rd as int) + ", "@ + spec_reg_name(rs1 as int) + ", "@ + spec_reg_name(
        rs2 as int,
    ) + ", "@ + spec_reg_name(rs3 as int)
}

/// `m a, b` over the register names.
pub open spec fn spec_text_reg2(m: Seq<char>, a: u32, b: u32) -> Seq<char> {
    m + " "@ + spec_reg_name(a as int) + ", "@ + spec_reg_name(b as int)
}

/// `m a, imm(b)`: the memory-operand shape of loads and stores.
pub open spec fn spec_text_mem(m: Seq<char>, a: u32, imm: u32, b: u32) -> Seq<char> {
    m + " "@ + spec_reg_name(a as int) + ", "@ + spec_signed_dec(imm) + "("@ + spec_reg_name(
        b as int,
    ) + ")"@
}

/// `m a, b, imm` with the immediate rendered signed.
pub open spec fn spec_text_reg2_imm(m: Seq<char>, a: u32, b: u32, imm: u32) -> Seq<char> {
    m + " "@ + spec_reg_name(a as int) + ", "@ + spec_reg_name(b as int) + ", "@ + spec_signed_dec(
        imm,
    )
}

/// `m a, imm` with the immediate rendered signed.
pub open spec fn spec_text_reg_imm(m: Seq<char>, a: u32, imm: u32) -> Seq<char> {
    m + " "@ + spec_reg_name(a as int) + ", "@ + spec_signed_dec(imm)
}

/// `m pred, succ`: the fence shape.
pub open spec fn spec_text_fence(m: Seq<char>, pred: u32, succ: u32) -> Seq<char> {
    m + " "@ + spec_signed_dec(pred) + ", "@ + spec_signed_dec(succ)
}

/// The JALR shorthands: the immediate is omitted when zero, and the
/// destination collapses into the base register when the two coincide.
pub open spec fn spec_text_jalr(rd: u32, rs1: u32, imm: u32) -> Seq<char> {
    if imm == 0 && rd == rs1 {
        "jalr"@ + " "@ + spec_reg_name(rd as int)
    } else if imm == 0 {
        "jalr"@ + " "@ + spec_reg_name(rd as int) + ", "@ + spec_reg_name(rs1 as int)
    } else if rd == rs1 {
        "jalr"@ + " "@ + spec_signed_dec(imm) + "("@ + spec_reg_name(rd as int) + ")"@
    } else {
        "jalr"@ + " "@ + spec_reg_name(rd as int) + ", "@ + spec_signed_dec(imm) + "("@
            + spec_reg_name(rs1 as int) + ")"@
    }
}

/// The CSR shapes: the short mnemonic without the destination when `rd` is
/// the zero register or repeats `rs1`, the long mnemonic with all three
/// operands otherwise.
pub open spec fn spec_text_csr(
    short: Seq<char>,
    long: Seq<char>,
    rd: u32,
    rs1: u32,
    imm: u32,
    t: Seq<(u32, Seq<char>)>,
) -> Seq<char> {
    if rd == 0 || rd == rs1 {
        short + " "@ + spec_csr_operand(t, imm) + ", "@ + spec_reg_name(rs1 as int)
    } else {
        long + " "@ + spec_reg_name(rd as int) + ", "@ + spec_csr_operand(t, imm) + ", "@
            + spec_reg_name(rs1 as int)
    }
}

/// The canonical assembler text of `i`, over the register-name table and the
/// CSR-name table `t`.
pub open spec fn spec_render(i: Instruction, t: Seq<(u32, Seq<char>)>) -> Seq<char> {
    match i {
        Instruction::Lb { rd, rs1, imm } => spec_text_mem("lb"@, rd, imm, rs1),
        Instruction::Lh { rd, rs1, imm } => spec_text_mem("lh"@, rd, imm, rs1),
        Instruction::Lw { rd, rs1, imm } => spec_text_mem("lw"@, rd, imm, rs1),
        Instruction::Lbu { rd, rs1, imm } => spec_text_mem("lbu"@, rd, imm, rs1),
        Instruction::Lhu { rd, rs1, imm } => spec_text_mem("lhu"@, rd, imm, rs1),
        Instruction::Lwu { rd, rs1, imm } => spec_text_mem("lwu"@, rd, imm, rs1),
        Instruction::Flw { rd, rs1, imm } => spec_text_mem("flw"@, rd, imm, rs1),
        Instruction::Fld { rd, rs1, imm } => spec_text_mem("fld"@, rd, imm, rs1),
        Instruction::Addi { rd, rs1, imm } => spec_text_reg2_imm("addi"@, rd, rs1, imm),
        Instruction::Slli { rd, rs1, imm } => spec_text_reg2_imm("slli"@, rd, rs1, imm),
        Instruction::Slti { rd, rs1, imm } => spec_text_reg2_imm("slti"@, rd, rs1, imm),
        Instruction::Sltiu { rd, rs1, imm } => spec_text_reg2_imm("sltiu"@, rd, rs1, imm),
        Instruction::Xori { rd, rs1, imm } => spec_text_reg2_imm("xori"@, rd, rs1, imm),
        Instruction::Srli { rd, rs1, imm } => spec_text_reg2_imm("srli"@, rd, rs1, imm),
        Instruction::Srai { rd, rs1, imm } => spec_text_reg2_imm("srai"@, rd, rs1, imm),
        Instruction::Ori { rd, rs1, imm } => spec_text_reg2_imm("ori"@, rd, rs1, imm),
        Instruction::Andi { rd, rs1, imm } => spec_text_reg2_imm("andi"@, rd, rs1, imm),
        // The U-type immediate is carried in place (bits 31:12); the
        // canonical text shows the 20-bit value, so rendering shifts it down.
        Instruction::AuiPc { rd, imm } => spec_text_reg_imm("auipc"@, rd, imm >> 12),
        Instruction::Lui { rd, imm } => "lui"@ + " "@ + spec_reg_name(rd as int) + ", "@
            + spec_hex_lit((imm >> 12) as nat),
        Instruction::Sb { rs1, rs2, imm } => spec_text_mem("sb"@, rs2, imm, rs1),
        Instruction::Sh { rs1, rs2, imm } => spec_text_mem("sh"@, rs2, imm, rs1),
        Instruction::Sw { rs1, rs2, imm } => spec_text_mem("sw"@, rs2, imm, rs1),
        Instruction::Fsw { rs1, rs2, imm } => spec_text_mem("fsw"@, rs2, imm, rs1),
        Instruction::Fsd { rs1, rs2, imm } => spec_text_mem("fsd"@, rs2, imm, rs1),
        Instruction::Add { rd, rs1, rs2 } => spec_text_reg3("add"@, rd, rs1, rs2),
        Instruction::Sub { rd, rs1, rs2 } => spec_text_reg3("sub"@, rd, rs1, rs2),
        Instruction::Sll { rd, rs1, rs2 } => spec_text_reg3("sll"@, rd, rs1, rs2),
        Instruction::Slt { rd, rs1, rs2 } => spec_text_reg3("slt"@, rd, rs1, rs2),
        Instruction::Sltu { rd, rs1, rs2 } => spec_text_reg3("sltu"@, rd, rs1, rs2),
        Instruction::Xor { rd, rs1, rs2 } => spec_text_reg3("xor"@, rd, rs1, rs2),
        Instruction::Srl { rd, rs1, rs2 } => spec_text_reg3("srl"@, rd, rs1, rs2),
        Instruction::Sra { rd, rs1, rs2 } => spec_text_reg3("sra"@, rd, rs1, rs2),
        Instruction::Or { rd, rs1, rs2 } => spec_text_reg3("or"@, rd, rs1, rs2),
        Instruction::And { rd, rs1, rs2 } => spec_text_reg3("and"@, rd, rs1, rs2),
        Instruction::Beq { rs1, rs2, imm } => spec_text_reg2_imm("beq"@, rs1, rs2, imm),
        Instruction::Bne { rs1, rs2, imm } => spec_text_reg2_imm("bne"@, rs1, rs2, imm),
        Instruction::Blt { rs1, rs2, imm } => spec_text_reg2_imm("blt"@, rs1, rs2, imm),
        Instruction::Bge { rs1, rs2, imm } => spec_text_reg2_imm("bge"@, rs1, rs2, imm),
        Instruction::Bltu { rs1, rs2, imm } => spec_text_reg2_imm("bltu"@, rs1, rs2, imm),
        Instruction::Bgeu { rs1, rs2, imm } => spec_text_reg2_imm("bgeu"@, rs1, rs2, imm),
        Instruction::Jalr { rd, rs1, imm } => spec_text_jalr(rd, rs1, imm),
        Instruction::Jal { rd, imm } => "jal"@ + " "@ + spec_signed_dec(imm) + "("@
            + spec_reg_name(rd as int) + ")"@,
        Instruction::ECall => "ecall"@,
        Instruction::EBreak => "ebreak"@,
        Instruction::SRet => "sret"@,
        Instruction::MRet => "mret"@,
        Instruction::SFenceVma => "sfence.vma"@,
        Instruction::CsrRw { rd, rs1, imm } => spec_text_csr("csrw"@, "csrrw"@, rd, rs1, imm, t),
        Instruction::CsrRs { rd, rs1, imm } => spec_text_csr("csrs"@, "csrrs"@, rd, rs1, imm, t),
        Instruction::CsrRc { rd, rs1, imm } => spec_text_csr("csrc"@, "csrrc"@, rd, rs1, imm, t),
        Instruction::CsrRwi { rd, rs1, imm } => spec_text_csr("csrwi"@, "csrrwi"@, rd, rs1, imm, t),
        Instruction::CsrRsi { rd, rs1, imm } => spec_text_csr("csrsi"@, "csrrsi"@, rd, rs1, imm, t),
        Instruction::CsrRci { rd, rs1, imm } => spec_text_csr("csrci"@, "csrrci"@, rd, rs1, imm, t),
        Instruction::Fence { pred, succ } => spec_text_fence("fence"@, pred, succ),
        Instruction::FenceI { pred, succ } => spec_text_fence("fence.i"@, pred, succ),
        Instruction::FmaddS { rd, rs1, rs2, rs3 } => spec_text_reg4("fmadd.s"@, rd, rs1, rs2, rs3),
        Instruction::FmsubS { rd, rs1, rs2, rs3 } => spec_text_reg4("fmsub.s"@, rd, rs1, rs2, rs3),
        Instruction::FnmaddS { rd, rs1, rs2, rs3 } => spec_text_reg4(
            "fnmadd.s"@,
            rd,
            rs1,
            rs2,
            rs3,
        ),
        Instruction::FnmsubS { rd, rs1, rs2, rs3 } => spec_text_reg4(
            "fnmsub.s"@,
            rd,
            rs1,
            rs2,
            rs3,
        ),
        Instruction::FaddS { rd, rs1, rs2 } => spec_text_reg3("fadd.s"@, rd, rs1, rs2),
        Instruction::FsubS { rd, rs1, rs2 } => spec_text_reg3("fsub.s"@, rd, rs1, rs2),
        Instruction::FmulS { rd, rs1, rs2 } => spec_text_reg3("fmul.s"@, rd, rs1, rs2),
        Instruction::FdivS { rd, rs1, rs2 } => spec_text_reg3("fdiv.s"@, rd, rs1, rs2),
        Instruction::FsqrtS { rd, rs1 } => spec_text_reg2("fsqrt.s"@, rd, rs1),
        Instruction::FsgnjS { rd, rs1, rs2 } => spec_text_reg3("fsgnj.s"@, rd, rs1, rs2),
        Instruction::FsgnjnS { rd, rs1, rs2 } => spec_text_reg3("fsgnjn.s"@, rd, rs1, rs2),
        Instruction::FsgnjxS { rd, rs1, rs2 } => spec_text_reg3("fsgnjx.s"@, rd, rs1, rs2),
        Instruction::FminS { rd, rs1, rs2 } => spec_text_reg3("fmin.s"@, rd, rs1, rs2),
        Instruction::FmaxS { rd, rs1, rs2 } => spec_text_reg3("fmax.s"@, rd, rs1, rs2),
        Instruction::FcvtSW { rd, rs1 } => spec_text_reg2("fcvt.s.w"@, rd, rs1),
        Instruction::FcvtSWU { rd, rs1 } => spec_text_reg2("fcvt.s.wu"@, rd, rs1),
        Instruction::FcvtWS { rd, rs1 } => spec_text_reg2("fcvt.w.s"@, rd, rs1),
        Instruction::FcvtWUS { rd, rs1 } => spec_text_reg2("fcvt.wu.s"@, rd, rs1),
        Instruction::FmvXW { rd, rs1 } => spec_text_reg2("fmv.x.w"@, rd, rs1),
        Instruction::FmvWX { rd, rs1 } => spec_text_reg2("fmv.w.x"@, rd, rs1),
        Instruction::FeqS { rd, rs1, rs2 } => spec_text_reg3("feq.s"@, rd, rs1, rs2),
        Instruction::FltS { rd, rs1, rs2 } => spec_text_reg3("flt.s"@, rd, rs1, rs2),
        Instruction::FleS { rd, rs1, rs2 } => spec_text_reg3("fle.s"@, rd, rs1, rs2),
        Instruction::FClassS { rd, rs1 } => spec_text_reg2("fclass.s"@, rd, rs1),
        Instruction::FmaddD { rd, rs1, rs2, rs3 } => spec_text_reg4("fmadd.d"@, rd, rs1, rs2, rs3),
        Instruction::FmsubD { rd, rs1, rs2, rs3 } => spec_text_reg4("fmsub.d"@, rd, rs1, rs2, rs3),
        Instruction::FnmaddD { rd, rs1, rs2, rs3 } => spec_text_reg4(
            "fnmadd.d"@,
            rd,
            rs1,
            rs2,
            rs3,
        ),
        Instruction::FnmsubD { rd, rs1, rs2, rs3 } => spec_text_reg4(
            "fnmsub.d"@,
            rd,
            rs1,
            rs2,
            rs3,
        ),
        Instruction::FaddD { rd, rs1, rs2 } => spec_text_reg3("fadd.d"@, rd, rs1, rs2),
        Instruction::FsubD { rd, rs1, rs2 } => spec_text_reg3("fsub.d"@, rd, rs1, rs2),
        Instruction::FmulD { rd, rs1, rs2 } => spec_text_reg3("fmul.d"@, rd, rs1, rs2),
        Instruction::FdivD { rd, rs1, rs2 } => spec_text_reg3("fdiv.d"@, rd, rs1, rs2),
        Instruction::FsqrtD { rd, rs1 } => spec_text_reg2("fsqrt.d"@, rd, rs1),
        Instruction::FsgnjD { rd, rs1, rs2 } => spec_text_reg3("fsgnj.d"@, rd, rs1, rs2),
        Instruction::FsgnjnD { rd, rs1, rs2 } => spec_text_reg3("fsgnjn.d"@, rd, rs1, rs2),
        Instruction::FsgnjxD { rd, rs1, rs2 } => spec_text_reg3("fsgnjx.d"@, rd, rs1, rs2),
        Instruction::FminD { rd, rs1, rs2 } => spec_text_reg3("fmin.d"@, rd, rs1, rs2),
        Instruction::FmaxD { rd, rs1, rs2 } => spec_text_reg3("fmax.d"@, rd, rs1, rs2),
        Instruction::FeqD { rd, rs1, rs2 } => spec_text_reg3("feq.d"@, rd, rs1, rs2),
        Instruction::FltD { rd, rs1, rs2 } => spec_text_reg3("flt.d"@, rd, rs1, rs2),
        Instruction::FleD { rd, rs1, rs2 } => spec_text_reg3("fle.d"@, rd, rs1, rs2),
        Instruction::FClassD { rd, rs1 } => spec_text_reg2("fclass.d"@, rd, rs1),
        Instruction::FcvtWD { rd, rs1 } => spec_text_reg2("fcvt.w.d"@, rd, rs1),
        Instruction::FcvtWUD { rd, rs1 } => spec_text_reg2("fcvt.wu.d"@, rd, rs1),
        Instruction::FcvtDW { rd, rs1 } => spec_text_reg2("fcvt.d.w"@, rd, rs1),
        Instruction::FcvtDWU { rd, rs1 } => spec_text_reg2("fcvt.d.wu"@, rd, rs1),
        Instruction::FcvtDS { rd, rs1 } => spec_text_reg2("fcvt.d.s"@, rd, rs1),
        Instruction::FcvtSD { rd, rs1 } => spec_text_reg2("fcvt.s.d"@, rd, rs1),
        Instruction::Mul { rd, rs1, rs2 } => spec_text_reg3("mul"@, rd, rs1, rs2),
        Instruction::Mulh { rd, rs1, rs2 } => spec_text_reg3("mulh"@, rd, rs1, rs2),
        Instruction::Mulsu { rd, rs1, rs2 } => spec_text_reg3("mulsu"@, rd, rs1, rs2),
        Instruction::Mulu { rd, rs1, rs2 } => spec_text_reg3("mulu"@, rd, rs1, rs2),
        Instruction::Div { rd, rs1, rs2 } => spec_text_reg3("div"@, rd, rs1, rs2),
        Instruction::Divu { rd, rs1, rs2 } => spec_text_reg3("divu"@, rd, rs1, rs2),
        Instruction::Rem { rd, rs1, rs2 } => spec_text_reg3("rem"@, rd, rs1, rs2),
        Instruction::Remu { rd, rs1, rs2 } => spec_text_reg3("remu"@, rd, rs1, rs2),
        Instruction::LrW { rd, rs1, rs2, .. } => spec_text_reg3("lr.w"@, rd, rs1, rs2),
        Instruction::ScW { rd, rs1, rs2, .. } => spec_text_reg3("sc.w"@, rd, rs1, rs2),
        Instruction::AmoswapW { rd, rs1, rs2, .. } => spec_text_reg3("amoswap.w"@, rd, rs1, rs2),
        Instruction::AmoaddW { rd, rs1, rs2, .. } => spec_text_reg3("amoadd.w"@, rd, rs1, rs2),
        Instruction::AmoandW { rd, rs1, rs2, .. } => spec_text_reg3("amoand.w"@, rd, rs1, rs2),
        Instruction::AmoorW { rd, rs1, rs2, .. } => spec_text_reg3("amoor.w"@, rd, rs1, rs2),
        Instruction::AmoxorW { rd, rs1, rs2, .. } => spec_text_reg3("amoxor.w"@, rd, rs1, rs2),
        Instruction::AmomaxW { rd, rs1, rs2, .. } => spec_text_reg3("amomax.w"@, rd, rs1, rs2),
        Instruction::AmominW { rd, rs1, rs2, .. } => spec_text_reg3("amomin.w"@, rd, rs1, rs2),
        Instruction::CNop => "c.nop"@,
        Instruction::CAddi4Spn { rd, nzuimm } => spec_text_reg_imm("c.addi4spn"@, rd, nzuimm),
        Instruction::CSlli { rd, rs1, shamt } => spec_text_reg2_imm("c.slli"@, rd, rs1, shamt),
    }
}

/// Builds `m a, b, c` over the register names.
fn fmt_reg3(m: &str, a: u32, b: u32, c: u32) -> (s: String)
    requires
        a < 32,
        b < 32,
        c < 32,
    ensures
        s@ == spec_text_reg3(m@, a, b, c),
{
    let mut s = String::from_str(m);
    s.append(" ");
    s.append(reg_str(a));
    s.append(", ");
    s.append(reg_str(b));
    s.append(", ");
    s.append(reg_str(c));
    s
}

/// Builds `m a, b, c, d` over the register names.
fn fmt_reg4(m: &str, a: u32, b: u32, c: u32, d: u32) -> (s: String)
    requires
        a < 32,
        b < 32,
        c < 32,
        d < 32,
    ensures
        s@ == spec_text_reg4(m@, a, b, c, d),
{
    let mut s = String::from_str(m);
    s.append(" ");
    s.append(reg_str(a));
    s.append(", ");
    s.append(reg_str(b));
    s.append(", ");
    s.append(reg_str(c));
    s.append(", ");
    s.append(reg_str(d));
    s
}

/// Builds `m a, b` over the register names.
fn fmt_reg2(m: &str, a: u32, b: u32) -> (s: String)
    requires
        a < 32,
        b < 32,
    ensures
        s@ == spec_text_reg2(m@, a, b),
{
    let mut s = String::from_str(m);
    s.append(" ");
    s.append(reg_str(a));
    s.append(", ");
    s.append(reg_str(b));
    s
}

/// Builds `m a, imm(b)`.
fn fmt_mem(m: &str, a: u32, imm: u32, b: u32) -> (s: String)
    requires
        a < 32,
        b < 32,
    ensures
        s@ == spec_text_mem(m@, a, imm, b),
{
    let mut s = String::from_str(m);
    s.append(" ");
    s.append(reg_str(a));
    s.append(", ");
    let num = u32_signed_dec(imm);
    s.append(num.as_str());
    s.append("(");
    s.append(reg_str(b));
    s.append(")");
    s
}

/// Builds `m a, b, imm`.
fn fmt_reg2_imm(m: &str, a: u32, b: u32, imm: u32) -> (s: String)
    requires
        a < 32,
        b < 32,
    ensures
        s@ == spec_text_reg2_imm(m@, a, b, imm),
{
    let mut s = String::from_str(m);
    s.append(" ");
    s.append(reg_str(a));
    s.append(", ");
    s.append(reg_str(b));
    s.append(", ");
    let num = u32_signed_dec(imm);
    s.append(num.as_str());
    s
}

/// Builds `m a, imm`.
fn fmt_reg_imm(m: &str, a: u32, imm: u32) -> (s: String)
    requires
        a < 32,
    ensures
        s@ == spec_text_reg_imm(m@, a, imm),
{
    let mut s = String::from_str(m);
    s.append(" ");
    s.append(reg_str(a));
    s.append(", ");
    let num = u32_signed_dec(imm);
    s.append(num.as_str());
    s
}

/// Builds `m pred, succ`.
fn fmt_fence(m: &str, pred: u32, succ: u32) -> (s: String)
    ensures
        s@ == spec_text_fence(m@, pred, succ),
{
    let mut s = String::from_str(m);
    s.append(" ");
    let p = u32_signed_dec(pred);
    s.append(p.as_str());
    s.append(", ");
    let q = u32_signed_dec(succ);
    s.append(q.as_str());
    s
}

/// Builds the JALR shorthand.
fn fmt_jalr(rd: u32, rs1: u32, imm: u32) -> (s: String)
    requires
        rd < 32,
        rs1 < 32,
    ensures
        s@ == spec_text_jalr(rd, rs1, imm),
{
    let mut s = String::from_str("jalr");
    s.append(" ");
    if imm == 0 && rd == rs1 {
        s.append(reg_str(rd));
    } else if imm == 0 {
        s.append(reg_str(rd));
        s.append(", ");
        s.append(reg_str(rs1));
    } else if rd == rs1 {
        let num = u32_signed_dec(imm);
        s.append(num.as_str());
        s.append("(");
        s.append(reg_str(rd));
        s.append(")");
    } else {
        s.append(reg_str(rd));
        s.append(", ");
        let num = u32_signed_dec(imm);
        s.append(num.as_str());
        s.append("(");
        s.append(reg_str(rs1));
        s.append(")");
    }
    s
}

/// Builds the text of a CSR operand: the table's name, or the address as a
/// hexadecimal literal.
fn fmt_csr_operand(t: &CsrNameTable, addr: u32) -> (s: String)
    ensures
        s@ == spec_csr_operand(t@, addr),
{
    match t.lookup(addr) {
        Some(name) => name,
        None => u32_hex_lit(addr),
    }
}

/// Builds the CSR shorthand or long form.
fn fmt_csr(short: &str, long: &str, rd: u32, rs1: u32, imm: u32, t: &CsrNameTable) -> (s: String)
    requires
        rd < 32,
        rs1 < 32,
    ensures
        s@ == spec_text_csr(short@, long@, rd, rs1, imm, t@),
{
    if rd == 0 || rd == rs1 {
        let mut s = String::from_str(short);
        s.append(" ");
        let op = fmt_csr_operand(t, imm);
        s.append(op.as_str());
        s.append(", ");
        s.append(reg_str(rs1));
        s
    } else {
        let mut s = String::from_str(long);
        s.append(" ");
        s.append(reg_str(rd));
        s.append(", ");
        let op = fmt_csr_operand(t, imm);
        s.append(op.as_str());
        s.append(", ");
        s.append(reg_str(rs1));
        s
    }
}

/// CSR shorthand law: a CSR read-set whose destination is the zero register
/// or repeats its source renders with the short mnemonic and no destination
/// operand; otherwise it renders with the long mnemonic and all three
/// operands.
pub proof fn lemma_csr_shorthand(rd: u32, rs1: u32, imm: u32, t: Seq<(u32, Seq<char>)>)
    ensures
        rd == 0 || rd == rs1 ==> spec_render(Instruction::CsrRs { rd, rs1, imm }, t) == "csrs"@
            + " "@ + spec_csr_operand(t, imm) + ", "@ + spec_reg_name(rs1 as int),
        rd != 0 && rd != rs1 ==> spec_render(Instruction::CsrRs { rd, rs1, imm }, t) == "csrrs"@
            + " "@ + spec_reg_name(rd as int) + ", "@ + spec_csr_operand(t, imm) + ", "@
            + spec_reg_name(rs1 as int),
{
}

impl Instruction {
    /// Renders the instruction as canonical assembler text, looking CSR
    /// addresses up in `csrs`.  Pure and total: the text is a function of the
    /// decoded value and the table alone.
    pub fn render(&self, csrs: &CsrNameTable) -> (s: String)
        requires
            self.fields_valid(),
        ensures
            s@ == spec_render(*self, csrs@),
    {
        match self {
            Instruction::Lb { rd, rs1, imm } => fmt_mem("lb", *rd, *imm, *rs1),
            Instruction::Lh { rd, rs1, imm } => fmt_mem("lh", *rd, *imm, *rs1),
            Instruction::Lw { rd, rs1, imm } => fmt_mem("lw", *rd, *imm, *rs1),
            Instruction::Lbu { rd, rs1, imm } => fmt_mem("lbu", *rd, *imm, *rs1),
            Instruction::Lhu { rd, rs1, imm } => fmt_mem("lhu", *rd, *imm, *rs1),
            Instruction::Lwu { rd, rs1, imm } => fmt_mem("lwu", *rd, *imm, *rs1),
            Instruction::Flw { rd, rs1, imm } => fmt_mem("flw", *rd, *imm, *rs1),
            Instruction::Fld { rd, rs1, imm } => fmt_mem("fld", *rd, *imm, *rs1),
            Instruction::Addi { rd, rs1, imm } => fmt_reg2_imm("addi", *rd, *rs1, *imm),
            Instruction::Slli { rd, rs1, imm } => fmt_reg2_imm("slli", *rd, *rs1, *imm),
            Instruction::Slti { rd, rs1, imm } => fmt_reg2_imm("slti", *rd, *rs1, *imm),
            Instruction::Sltiu { rd, rs1, imm } => fmt_reg2_imm("sltiu", *rd, *rs1, *imm),
            Instruction::Xori { rd, rs1, imm } => fmt_reg2_imm("xori", *rd, *rs1, *imm),
            Instruction::Srli { rd, rs1, imm } => fmt_reg2_imm("srli", *rd, *rs1, *imm),
            Instruction::Srai { rd, rs1, imm } => fmt_reg2_imm("srai", *rd, *rs1, *imm),
            Instruction::Ori { rd, rs1, imm } => fmt_reg2_imm("ori", *rd, *rs1, *imm),
            Instruction::Andi { rd, rs1, imm } => fmt_reg2_imm("andi", *rd, *rs1, *imm),
            Instruction::AuiPc { rd, imm } => fmt_reg_imm("auipc", *rd, *imm >> 12),
            Instruction::Lui { rd, imm } => {
                let mut s = String::from_str("lui");
                s.append(" ");
                s.append(reg_str(*rd));
                s.append(", ");
                let num = u32_hex_lit(*imm >> 12);
                s.append(num.as_str());
                s
            },
            Instruction::Sb { rs1, rs2, imm } => fmt_mem("sb", *rs2, *imm, *rs1),
            Instruction::Sh { rs1, rs2, imm } => fmt_mem("sh", *rs2, *imm, *rs1),
            Instruction::Sw { rs1, rs2, imm } => fmt_mem("sw", *rs2, *imm, *rs1),
            Instruction::Fsw { rs1, rs2, imm } => fmt_mem("fsw", *rs2, *imm, *rs1),
            Instruction::Fsd { rs1, rs2, imm } => fmt_mem("fsd", *rs2, *imm, *rs1),
            Instruction::Add { rd, rs1, rs2 } => fmt_reg3("add", *rd, *rs1, *rs2),
            Instruction::Sub { rd, rs1, rs2 } => fmt_reg3("sub", *rd, *rs1, *rs2),
            Instruction::Sll { rd, rs1, rs2 } => fmt_reg3("sll", *rd, *rs1, *rs2),
            Instruction::Slt { rd, rs1, rs2 } => fmt_reg3("slt", *rd, *rs1, *rs2),
            Instruction::Sltu { rd, rs1, rs2 } => fmt_reg3("sltu", *rd, *rs1, *rs2),
            Instruction::Xor { rd, rs1, rs2 } => fmt_reg3("xor", *rd, *rs1, *rs2),
            Instruction::Srl { rd, rs1, rs2 } => fmt_reg3("srl", *rd, *rs1, *rs2),
            Instruction::Sra { rd, rs1, rs2 } => fmt_reg3("sra", *rd, *rs1, *rs2),
            Instruction::Or { rd, rs1, rs2 } => fmt_reg3("or", *rd, *rs1, *rs2),
            Instruction::And { rd, rs1, rs2 } => fmt_reg3("and", *rd, *rs1, *rs2),
            Instruction::Beq { rs1, rs2, imm } => fmt_reg2_imm("beq", *rs1, *rs2, *imm),
            Instruction::Bne { rs1, rs2, imm } => fmt_reg2_imm("bne", *rs1, *rs2, *imm),
            Instruction::Blt { rs1, rs2, imm } => fmt_reg2_imm("blt", *rs1, *rs2, *imm),
            Instruction::Bge { rs1, rs2, imm } => fmt_reg2_imm("bge", *rs1, *rs2, *imm),
            Instruction::Bltu { rs1, rs2, imm } => fmt_reg2_imm("bltu", *rs1, *rs2, *imm),
            Instruction::Bgeu { rs1, rs2, imm } => fmt_reg2_imm("bgeu", *rs1, *rs2, *imm),
            Instruction::Jalr { rd, rs1, imm } => fmt_jalr(*rd, *rs1, *imm),
            Instruction::Jal { rd, imm } => {
                let mut s = String::from_str("jal");
                s.append(" ");
                let num = u32_signed_dec(*imm);
                s.append(num.as_str());
                s.append("(");
                s.append(reg_str(*rd));
                s.append(")");
                s
            },
            Instruction::ECall => String::from_str("ecall"),
            Instruction::EBreak => String::from_str("ebreak"),
            Instruction::SRet => String::from_str("sret"),
            Instruction::MRet => String::from_str("mret"),
            Instruction::SFenceVma => String::from_str("sfence.vma"),
            Instruction::CsrRw { rd, rs1, imm } => fmt_csr("csrw", "csrrw", *rd, *rs1, *imm, csrs),
            Instruction::CsrRs { rd, rs1, imm } => fmt_csr("csrs", "csrrs", *rd, *rs1, *imm, csrs),
            Instruction::CsrRc { rd, rs1, imm } => fmt_csr("csrc", "csrrc", *rd, *rs1, *imm, csrs),
            Instruction::CsrRwi { rd, rs1, imm } => fmt_csr(
                "csrwi",
                "csrrwi",
                *rd,
                *rs1,
                *imm,
                csrs,
            ),
            Instruction::CsrRsi { rd, rs1, imm } => fmt_csr(
                "csrsi",
                "csrrsi",
                *rd,
                *rs1,
                *imm,
                csrs,
            ),
            Instruction::CsrRci { rd, rs1, imm } => fmt_csr(
                "csrci",
                "csrrci",
                *rd,
                *rs1,
                *imm,
                csrs,
            ),
            Instruction::Fence { pred, succ } => fmt_fence("fence", *pred, *succ),
            Instruction::FenceI { pred, succ } => fmt_fence("fence.i", *pred, *succ),
            Instruction::FmaddS { rd, rs1, rs2, rs3 } => fmt_reg4(
                "fmadd.s",
                *rd,
                *rs1,
                *rs2,
                *rs3,
            ),
            Instruction::FmsubS { rd, rs1, rs2, rs3 } => fmt_reg4(
                "fmsub.s",
                *rd,
                *rs1,
                *rs2,
                *rs3,
            ),
            Instruction::FnmaddS { rd, rs1, rs2, rs3 } => fmt_reg4(
                "fnmadd.s",
                *rd,
                *rs1,
                *rs2,
                *rs3,
            ),
            Instruction::FnmsubS { rd, rs1, rs2, rs3 } => fmt_reg4(
                "fnmsub.s",
                *rd,
                *rs1,
                *rs2,
                *rs3,
            ),
            Instruction::FaddS { rd, rs1, rs2 } => fmt_reg3("fadd.s", *rd, *rs1, *rs2),
            Instruction::FsubS { rd, rs1, rs2 } => fmt_reg3("fsub.s", *rd, *rs1, *rs2),
            Instruction::FmulS { rd, rs1, rs2 } => fmt_reg3("fmul.s", *rd, *rs1, *rs2),
            Instruction::FdivS { rd, rs1, rs2 } => fmt_reg3("fdiv.s", *rd, *rs1, *rs2),
            Instruction::FsqrtS { rd, rs1 } => fmt_reg2("fsqrt.s", *rd, *rs1),
            Instruction::FsgnjS { rd, rs1, rs2 } => fmt_reg3("fsgnj.s", *rd, *rs1, *rs2),
            Instruction::FsgnjnS { rd, rs1, rs2 } => fmt_reg3("fsgnjn.s", *rd, *rs1, *rs2),
            Instruction::FsgnjxS { rd, rs1, rs2 } => fmt_reg3("fsgnjx.s", *rd, *rs1, *rs2),
            Instruction::FminS { rd, rs1, rs2 } => fmt_reg3("fmin.s", *rd, *rs1, *rs2),
            Instruction::FmaxS { rd, rs1, rs2 } => fmt_reg3("fmax.s", *rd, *rs1, *rs2),
            Instruction::FcvtSW { rd, rs1 } => fmt_reg2("fcvt.s.w", *rd, *rs1),
            Instruction::FcvtSWU { rd, rs1 } => fmt_reg2("fcvt.s.wu", *rd, *rs1),
            Instruction::FcvtWS { rd, rs1 } => fmt_reg2("fcvt.w.s", *rd, *rs1),
            Instruction::FcvtWUS { rd, rs1 } => fmt_reg2("fcvt.wu.s", *rd, *rs1),
            Instruction::FmvXW { rd, rs1 } => fmt_reg2("fmv.x.w", *rd, *rs1),
            Instruction::FmvWX { rd, rs1 } => fmt_reg2("fmv.w.x", *rd, *rs1),
            Instruction::FeqS { rd, rs1, rs2 } => fmt_reg3("feq.s", *rd, *rs1, *rs2),
            Instruction::FltS { rd, rs1, rs2 } => fmt_reg3("flt.s", *rd, *rs1, *rs2),
            Instruction::FleS { rd, rs1, rs2 } => fmt_reg3("fle.s", *rd, *rs1, *rs2),
            Instruction::FClassS { rd, rs1 } => fmt_reg2("fclass.s", *rd, *rs1),
            Instruction::FmaddD { rd, rs1, rs2, rs3 } => fmt_reg4(
                "fmadd.d",
                *rd,
                *rs1,
                *rs2,
                *rs3,
            ),
            Instruction::FmsubD { rd, rs1, rs2, rs3 } => fmt_reg4(
                "fmsub.d",
                *rd,
                *rs1,
                *rs2,
                *rs3,
            ),
            Instruction::FnmaddD { rd, rs1, rs2, rs3 } => fmt_reg4(
                "fnmadd.d",
                *rd,
                *rs1,
                *rs2,
                *rs3,
            ),
            Instruction::FnmsubD { rd, rs1, rs2, rs3 } => fmt_reg4(
                "fnmsub.d",
                *rd,
                *rs1,
                *rs2,
                *rs3,
            ),
            Instruction::FcvtSD { rd, rs1 } => fmt_reg2("fcvt.s.d", *rd, *rs1),
            Instruction::FcvtDS { rd, rs1 } => fmt_reg2("fcvt.d.s", *rd, *rs1),
            Instruction::FaddD { rd, rs1, rs2 } => fmt_reg3("fadd.d", *rd, *rs1, *rs2),
            Instruction::FsubD { rd, rs1, rs2 } => fmt_reg3("fsub.d", *rd, *rs1, *rs2),
            Instruction::FmulD { rd, rs1, rs2 } => fmt_reg3("fmul.d", *rd, *rs1, *rs2),
            Instruction::FdivD { rd, rs1, rs2 } => fmt_reg3("fdiv.d", *rd, *rs1, *rs2),
            Instruction::FsqrtD { rd, rs1 } => fmt_reg2("fsqrt.d", *rd, *rs1),
            Instruction::FsgnjD { rd, rs1, rs2 } => fmt_reg3("fsgnj.d", *rd, *rs1, *rs2),
            Instruction::FsgnjnD { rd, rs1, rs2 } => fmt_reg3("fsgnjn.d", *rd, *rs1, *rs2),
            Instruction::FsgnjxD { rd, rs1, rs2 } => fmt_reg3("fsgnjx.d", *rd, *rs1, *rs2),
            Instruction::FminD { rd, rs1, rs2 } => fmt_reg3("fmin.d", *rd, *rs1, *rs2),
            Instruction::FmaxD { rd, rs1, rs2 } => fmt_reg3("fmax.d", *rd, *rs1, *rs2),
            Instruction::FeqD { rd, rs1, rs2 } => fmt_reg3("feq.d", *rd, *rs1, *rs2),
            Instruction::FltD { rd, rs1, rs2 } => fmt_reg3("flt.d", *rd, *rs1, *rs2),
            Instruction::FleD { rd, rs1, rs2 } => fmt_reg3("fle.d", *rd, *rs1, *rs2),
            Instruction::FClassD { rd, rs1 } => fmt_reg2("fclass.d", *rd, *rs1),
            Instruction::FcvtWD { rd, rs1 } => fmt_reg2("fcvt.w.d", *rd, *rs1),
            Instruction::FcvtWUD { rd, rs1 } => fmt_reg2("fcvt.wu.d", *rd, *rs1),
            Instruction::FcvtDW { rd, rs1 } => fmt_reg2("fcvt.d.w", *rd, *rs1),
            Instruction::FcvtDWU { rd, rs1 } => fmt_reg2("fcvt.d.wu", *rd, *rs1),
            Instruction::Mul { rd, rs1, rs2 } => fmt_reg3("mul", *rd, *rs1, *rs2),
            Instruction::Mulh { rd, rs1, rs2 } => fmt_reg3("mulh", *rd, *rs1, *rs2),
            Instruction::Mulsu { rd, rs1, rs2 } => fmt_reg3("mulsu", *rd, *rs1, *rs2),
            Instruction::Mulu { rd, rs1, rs2 } => fmt_reg3("mulu", *rd, *rs1, *rs2),
            Instruction::Div { rd, rs1, rs2 } => fmt_reg3("div", *rd, *rs1, *rs2),
            Instruction::Divu { rd, rs1, rs2 } => fmt_reg3("divu", *rd, *rs1, *rs2),
            Instruction::Rem { rd, rs1, rs2 } => fmt_reg3("rem", *rd, *rs1, *rs2),
            Instruction::Remu { rd, rs1, rs2 } => fmt_reg3("remu", *rd, *rs1, *rs2),
            Instruction::LrW { rd, rs1, rs2, .. } => fmt_reg3("lr.w", *rd, *rs1, *rs2),
            Instruction::ScW { rd, rs1, rs2, .. } => fmt_reg3("sc.w", *rd, *rs1, *rs2),
            Instruction::AmoswapW { rd, rs1, rs2, .. } => fmt_reg3("amoswap.w", *rd, *rs1, *rs2),
            Instruction::AmoaddW { rd, rs1, rs2, .. } => fmt_reg3("amoadd.w", *rd, *rs1, *rs2),
            Instruction::AmoandW { rd, rs1, rs2, .. } => fmt_reg3("amoand.w", *rd, *rs1, *rs2),
            Instruction::AmoorW { rd, rs1, rs2, .. } => fmt_reg3("amoor.w", *rd, *rs1, *rs2),
            Instruction::AmoxorW { rd, rs1, rs2, .. } => fmt_reg3("amoxor.w", *rd, *rs1, *rs2),
            Instruction::AmomaxW { rd, rs1, rs2, .. } => fmt_reg3("amomax.w", *rd, *rs1, *rs2),
            Instruction::AmominW { rd, rs1, rs2, .. } => fmt_reg3("amomin.w", *rd, *rs1, *rs2),
            Instruction::CNop => String::from_str("c.nop"),
            Instruction::CAddi4Spn { rd, nzuimm } => fmt_reg_imm("c.addi4spn", *rd, *nzuimm),
            Instruction::CSlli { rd, rs1, shamt } => fmt_reg2_imm("c.slli", *rd, *rs1, *shamt),
        }
    }
}

} // verus!
