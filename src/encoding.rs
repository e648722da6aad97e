//! The 32-bit instruction word: field extraction, the six hardware layouts
//! (R, I, S, B, U, J), and the decoder and encoder built on them.
//!
//! ```text
//! | 31 .. 25   | 24 .. 20 | 19 .. 15 | 14 .. 12 | 11 .. 7    | 6 .. 0 |
//! | funct7     | rs2      | rs1      | funct3   | rd         | opcode | R
//! | imm[11:0]             | rs1      | funct3   | rd         | opcode | I
//! | imm[11:5]  | rs2      | rs1      | funct3   | imm[4:0]   | opcode | S
//! | [12] [10:5]| rs2      | rs1      | funct3   | [4:1] [11] | opcode | B
//! | imm[31:12]                                  | rd         | opcode | U
//! | [20] [10:1] [11] [19:12]                    | rd         | opcode | J
//! ```
use vstd::prelude::*;

use crate::instructions::{Instruction, RV32IInstuction, ZifenceiInstructions};

verus! {

pub const OP_LOAD: u8 = 0b0000011;
pub const OP_MISC_MEM: u8 = 0b0001111;
pub const OP_IMM: u8 = 0b0010011;
pub const OP_AUIPC: u8 = 0b0010111;
pub const OP_STORE: u8 = 0b0100011;
pub const OP_REG: u8 = 0b0110011;
pub const OP_LUI: u8 = 0b0110111;
pub const OP_BRANCH: u8 = 0b1100011;
pub const OP_JALR: u8 = 0b1100111;
pub const OP_JAL: u8 = 0b1101111;
pub const OP_SYSTEM: u8 = 0b1110011;

/// funct7 value that selects subtraction and arithmetic right shifts.
pub const FUNCT7_ALT: u8 = 0b0100000;

pub open spec fn opcode_of(w: u32) -> u8 {
    (w & 0x7F) as u8
}

pub open spec fn rd_of(w: u32) -> u8 {
    ((w >> 7) & 0x1F) as u8
}

pub open spec fn rs1_of(w: u32) -> u8 {
    ((w >> 15) & 0x1F) as u8
}

pub open spec fn rs2_of(w: u32) -> u8 {
    ((w >> 20) & 0x1F) as u8
}

pub open spec fn funct3_of(w: u32) -> u8 {
    ((w >> 12) & 0x7) as u8
}

pub open spec fn funct7_of(w: u32) -> u8 {
    ((w >> 25) & 0x7F) as u8
}

/// The I-type immediate, bits 31..20.
pub open spec fn imm_i_of(w: u32) -> u16 {
    ((w >> 20) & 0xFFF) as u16
}

/// The S-type immediate: bits 31..25 above bits 11..7.
pub open spec fn imm_s_of(w: u32) -> u16 {
    ((((w >> 25) & 0x7F) << 5) | ((w >> 7) & 0x1F)) as u16
}

/// The B-type immediate, with its implicit zero bit 0.
pub open spec fn imm_b_of(w: u32) -> u16 {
    ((((w >> 31) & 0x1) << 12) | (((w >> 7) & 0x1) << 11) | (((w >> 25) & 0x3F) << 5) | (((w
        >> 8) & 0xF) << 1)) as u16
}

/// The U-type immediate: the upper 20 bits of the word in place, with the
/// low 12 bits zero.
pub open spec fn imm_u_of(w: u32) -> u32 {
    w & 0xFFFF_F000
}

/// The J-type immediate, with its implicit zero bit 0.
pub open spec fn imm_j_of(w: u32) -> u32 {
    (((w >> 31) & 0x1) << 20) | (((w >> 12) & 0xFF) << 12) | (((w >> 20) & 0x1) << 11) | (((w
        >> 21) & 0x3FF) << 1)
}

pub open spec fn pack_r(funct7: u8, rs1: u8, rs2: u8, funct3: u8, rd: u8, opcode: u8) -> u32 {
    ((funct7 as u32) << 25) | ((rs2 as u32) << 20) | ((rs1 as u32) << 15) | ((funct3 as u32)
        << 12) | ((rd as u32) << 7) | (opcode as u32)
}

pub open spec fn pack_i(imm: u16, rs1: u8, funct3: u8, rd: u8, opcode: u8) -> u32 {
    ((imm as u32) << 20) | ((rs1 as u32) << 15) | ((funct3 as u32) << 12) | ((rd as u32) << 7)
        | (opcode as u32)
}

pub open spec fn pack_s(imm: u16, rs1: u8, rs2: u8, funct3: u8, opcode: u8) -> u32 {
    ((((imm as u32) >> 5) & 0x7F) << 25) | ((rs2 as u32) << 20) | ((rs1 as u32) << 15) | ((
    funct3 as u32) << 12) | (((imm as u32) & 0x1F) << 7) | (opcode as u32)
}

pub open spec fn pack_b(imm: u16, rs1: u8, rs2: u8, funct3: u8, opcode: u8) -> u32 {
    ((((imm as u32) >> 12) & 0x1) << 31) | ((((imm as u32) >> 5) & 0x3F) << 25) | ((rs2 as u32)
        << 20) | ((rs1 as u32) << 15) | ((funct3 as u32) << 12) | ((((imm as u32) >> 1) & 0xF)
        << 8) | ((((imm as u32) >> 11) & 0x1) << 7) | (opcode as u32)
}

pub open spec fn pack_u(imm: u32, rd: u8, opcode: u8) -> u32 {
    (imm & 0xFFFF_F000) | ((rd as u32) << 7) | (opcode as u32)
}

pub open spec fn pack_j(imm: u32, rd: u8, opcode: u8) -> u32 {
    (((imm >> 20) & 0x1) << 31) | (((imm >> 1) & 0x3FF) << 21) | (((imm >> 11) & 0x1) << 20) | ((
    (imm >> 12) & 0xFF) << 12) | ((rd as u32) << 7) | (opcode as u32)
}

/// The FENCE immediate: fm in bits 11..8, pred in 7..4, succ in 3..0.
pub open spec fn fence_imm(succ: u8, pred: u8, fm: u8) -> u16 {
    ((fm as u16) << 8) | ((pred as u16) << 4) | (succ as u16)
}

/// The word that encodes `instr` under the hardware encoding tables.
pub open spec fn encode_spec(instr: Instruction) -> u32 {
    match instr {
        Instruction::RV32I(i) => match i {
            RV32IInstuction::ADDI { rd, rs1, imm } => pack_i(imm, rs1, 0b000, rd, OP_IMM),
            RV32IInstuction::SLTI { rd, rs1, imm } => pack_i(imm, rs1, 0b010, rd, OP_IMM),
            RV32IInstuction::SLTIU { rd, rs1, imm } => pack_i(imm, rs1, 0b011, rd, OP_IMM),
            RV32IInstuction::XORI { rd, rs1, imm } => pack_i(imm, rs1, 0b100, rd, OP_IMM),
            RV32IInstuction::ORI { rd, rs1, imm } => pack_i(imm, rs1, 0b110, rd, OP_IMM),
            RV32IInstuction::ANDI { rd, rs1, imm } => pack_i(imm, rs1, 0b111, rd, OP_IMM),
            RV32IInstuction::SLLI { rd, rs1, imm } => pack_i(imm as u16, rs1, 0b001, rd, OP_IMM),
            RV32IInstuction::SRLI { rd, rs1, imm } => pack_i(imm as u16, rs1, 0b101, rd, OP_IMM),
            RV32IInstuction::SRAI { rd, rs1, imm } => pack_i(
                0b0100000_00000u16 | (imm as u16),
                rs1,
                0b101,
                rd,
                OP_IMM,
            ),
            RV32IInstuction::LUI { rd, imm } => pack_u(imm, rd, OP_LUI),
            RV32IInstuction::AUIPC { rd, imm } => pack_u(imm, rd, OP_AUIPC),
            RV32IInstuction::ADD { rd, rs1, rs2 } => pack_r(0, rs1, rs2, 0b000, rd, OP_REG),
            RV32IInstuction::SUB { rd, rs1, rs2 } => pack_r(FUNCT7_ALT, rs1, rs2, 0b000, rd, OP_REG),
            RV32IInstuction::SLL { rd, rs1, rs2 } => pack_r(0, rs1, rs2, 0b001, rd, OP_REG),
            RV32IInstuction::SLT { rd, rs1, rs2 } => pack_r(0, rs1, rs2, 0b010, rd, OP_REG),
            RV32IInstuction::SLTU { rd, rs1, rs2 } => pack_r(0, rs1, rs2, 0b011, rd, OP_REG),
            RV32IInstuction::XOR { rd, rs1, rs2 } => pack_r(0, rs1, rs2, 0b100, rd, OP_REG),
            RV32IInstuction::SRL { rd, rs1, rs2 } => pack_r(0, rs1, rs2, 0b101, rd, OP_REG),
            RV32IInstuction::SRA { rd, rs1, rs2 } => pack_r(FUNCT7_ALT, rs1, rs2, 0b101, rd, OP_REG),
            RV32IInstuction::OR { rd, rs1, rs2 } => pack_r(0, rs1, rs2, 0b110, rd, OP_REG),
            RV32IInstuction::AND { rd, rs1, rs2 } => pack_r(0, rs1, rs2, 0b111, rd, OP_REG),
            RV32IInstuction::JAL { rd, imm } => pack_j(imm, rd, OP_JAL),
            RV32IInstuction::JALR { rd, rs1, imm } => pack_i(imm, rs1, 0b000, rd, OP_JALR),
            RV32IInstuction::BEQ { rs1, rs2, imm } => pack_b(imm, rs1, rs2, 0b000, OP_BRANCH),
            RV32IInstuction::BNE { rs1, rs2, imm } => pack_b(imm, rs1, rs2, 0b001, OP_BRANCH),
            RV32IInstuction::BLT { rs1, rs2, imm } => pack_b(imm, rs1, rs2, 0b100, OP_BRANCH),
            RV32IInstuction::BGE { rs1, rs2, imm } => pack_b(imm, rs1, rs2, 0b101, OP_BRANCH),
            RV32IInstuction::BLTU { rs1, rs2, imm } => pack_b(imm, rs1, rs2, 0b110, OP_BRANCH),
            RV32IInstuction::BGEU { rs1, rs2, imm } => pack_b(imm, rs1, rs2, 0b111, OP_BRANCH),
            RV32IInstuction::LB { rd, rs1, imm } => pack_i(imm, rs1, 0b000, rd, OP_LOAD),
            RV32IInstuction::LH { rd, rs1, imm } => pack_i(imm, rs1, 0b001, rd, OP_LOAD),
            RV32IInstuction::LW { rd, rs1, imm } => pack_i(imm, rs1, 0b010, rd, OP_LOAD),
            RV32IInstuction::LBU { rd, rs1, imm } => pack_i(imm, rs1, 0b100, rd, OP_LOAD),
            RV32IInstuction::LHU { rd, rs1, imm } => pack_i(imm, rs1, 0b101, rd, OP_LOAD),
            RV32IInstuction::SB { rs1, rs2, imm } => pack_s(imm, rs1, rs2, 0b000, OP_STORE),
            RV32IInstuction::SH { rs1, rs2, imm } => pack_s(imm, rs1, rs2, 0b001, OP_STORE),
            RV32IInstuction::SW { rs1, rs2, imm } => pack_s(imm, rs1, rs2, 0b010, OP_STORE),
            RV32IInstuction::FENCE { rd, rs1, succ, pred, fm } => pack_i(
                fence_imm(succ, pred, fm),
                rs1,
                0b000,
                rd,
                OP_MISC_MEM,
            ),
            RV32IInstuction::ECALL => pack_i(0, 0, 0b000, 0, OP_SYSTEM),
            RV32IInstuction::EBREAK => pack_i(1, 0, 0b000, 0, OP_SYSTEM),
        },
        Instruction::Zifencei(ZifenceiInstructions::FenceI) => pack_i(0, 0, 0b001, 0, OP_MISC_MEM),
    }
}

pub open spec fn base(i: RV32IInstuction) -> Option<Instruction> {
    Some(Instruction::RV32I(i))
}

/// The instruction that `w` encodes under the hardware encoding tables, if
/// any. Reserved bits of the discriminating fields must be zero.
pub open spec fn decode_spec(w: u32) -> Option<Instruction> {
    let rd = rd_of(w);
    let rs1 = rs1_of(w);
    let rs2 = rs2_of(w);
    let f3 = funct3_of(w);
    let f7 = funct7_of(w);
    let op = opcode_of(w);
    if op == OP_LOAD {
        let imm = imm_i_of(w);
        if f3 == 0 {
            base(RV32IInstuction::LB { rd, rs1, imm })
        } else if f3 == 1 {
            base(RV32IInstuction::LH { rd, rs1, imm })
        } else if f3 == 2 {
            base(RV32IInstuction::LW { rd, rs1, imm })
        } else if f3 == 4 {
            base(RV32IInstuction::LBU { rd, rs1, imm })
        } else if f3 == 5 {
            base(RV32IInstuction::LHU { rd, rs1, imm })
        } else {
            None
        }
    } else if op == OP_MISC_MEM {
        let imm = imm_i_of(w);
        if f3 == 0 {
            base(
                RV32IInstuction::FENCE {
                    rd,
                    rs1,
                    succ: (imm & 0xF) as u8,
                    pred: ((imm >> 4) & 0xF) as u8,
                    fm: (imm >> 8) as u8,
                },
            )
        } else if f3 == 1 {
            Some(Instruction::Zifencei(ZifenceiInstructions::FenceI))
        } else {
            None
        }
    } else if op == OP_IMM {
        let imm = imm_i_of(w);
        if f3 == 0 {
            base(RV32IInstuction::ADDI { rd, rs1, imm })
        } else if f3 == 2 {
            base(RV32IInstuction::SLTI { rd, rs1, imm })
        } else if f3 == 3 {
            base(RV32IInstuction::SLTIU { rd, rs1, imm })
        } else if f3 == 4 {
            base(RV32IInstuction::XORI { rd, rs1, imm })
        } else if f3 == 6 {
            base(RV32IInstuction::ORI { rd, rs1, imm })
        } else if f3 == 7 {
            base(RV32IInstuction::ANDI { rd, rs1, imm })
        } else if f3 == 1 {
            if f7 == 0 {
                base(RV32IInstuction::SLLI { rd, rs1, imm: rs2 })
            } else {
                None
            }
        } else {
            if f7 == 0 {
                base(RV32IInstuction::SRLI { rd, rs1, imm: rs2 })
            } else if f7 == FUNCT7_ALT {
                base(RV32IInstuction::SRAI { rd, rs1, imm: rs2 })
            } else {
                None
            }
        }
    } else if op == OP_AUIPC {
        base(RV32IInstuction::AUIPC { rd, imm: imm_u_of(w) })
    } else if op == OP_STORE {
        let imm = imm_s_of(w);
        if f3 == 0 {
            base(RV32IInstuction::SB { rs1, rs2, imm })
        } else if f3 == 1 {
            base(RV32IInstuction::SH { rs1, rs2, imm })
        } else if f3 == 2 {
            base(RV32IInstuction::SW { rs1, rs2, imm })
        } else {
            None
        }
    } else if op == OP_REG {
        if f7 == 0 {
            if f3 == 0 {
                base(RV32IInstuction::ADD { rd, rs1, rs2 })
            } else if f3 == 1 {
                base(RV32IInstuction::SLL { rd, rs1, rs2 })
            } else if f3 == 2 {
                base(RV32IInstuction::SLT { rd, rs1, rs2 })
            } else if f3 == 3 {
                base(RV32IInstuction::SLTU { rd, rs1, rs2 })
            } else if f3 == 4 {
                base(RV32IInstuction::XOR { rd, rs1, rs2 })
            } else if f3 == 5 {
                base(RV32IInstuction::SRL { rd, rs1, rs2 })
            } else if f3 == 6 {
                base(RV32IInstuction::OR { rd, rs1, rs2 })
            } else {
                base(RV32IInstuction::AND { rd, rs1, rs2 })
            }
        } else if f7 == FUNCT7_ALT {
            if f3 == 0 {
                base(RV32IInstuction::SUB { rd, rs1, rs2 })
            } else if f3 == 5 {
                base(RV32IInstuction::SRA { rd, rs1, rs2 })
            } else {
                None
            }
        } else {
            None
        }
    } else if op == OP_LUI {
        base(RV32IInstuction::LUI { rd, imm: imm_u_of(w) })
    } else if op == OP_BRANCH {
        let imm = imm_b_of(w);
        if f3 == 0 {
            base(RV32IInstuction::BEQ { rs1, rs2, imm })
        } else if f3 == 1 {
            base(RV32IInstuction::BNE { rs1, rs2, imm })
        } else if f3 == 4 {
            base(RV32IInstuction::BLT { rs1, rs2, imm })
        } else if f3 == 5 {
            base(RV32IInstuction::BGE { rs1, rs2, imm })
        } else if f3 == 6 {
            base(RV32IInstuction::BLTU { rs1, rs2, imm })
        } else if f3 == 7 {
            base(RV32IInstuction::BGEU { rs1, rs2, imm })
        } else {
            None
        }
    } else if op == OP_JALR {
        if f3 == 0 {
            base(RV32IInstuction::JALR { rd, rs1, imm: imm_i_of(w) })
        } else {
            None
        }
    } else if op == OP_JAL {
        base(RV32IInstuction::JAL { rd, imm: imm_j_of(w) })
    } else if op == OP_SYSTEM {
        if w == pack_i(0, 0, 0b000, 0, OP_SYSTEM) {
            base(RV32IInstuction::ECALL)
        } else if w == pack_i(1, 0, 0b000, 0, OP_SYSTEM) {
            base(RV32IInstuction::EBREAK)
        } else {
            None
        }
    } else {
        None
    }
}

/// Fields read back from an R-type word are the fields packed into it.
proof fn lemma_fields_r(funct7: u8, rs1: u8, rs2: u8, funct3: u8, rd: u8, opcode: u8)
    by (bit_vector)
    requires
        funct7 < 128,
        rs1 < 32,
        rs2 < 32,
        funct3 < 8,
        rd < 32,
        opcode < 128,
    ensures
        opcode_of(pack_r(funct7, rs1, rs2, funct3, rd, opcode)) == opcode,
        rd_of(pack_r(funct7, rs1, rs2, funct3, rd, opcode)) == rd,
        funct3_of(pack_r(funct7, rs1, rs2, funct3, rd, opcode)) == funct3,
        rs1_of(pack_r(funct7, rs1, rs2, funct3, rd, opcode)) == rs1,
        rs2_of(pack_r(funct7, rs1, rs2, funct3, rd, opcode)) == rs2,
        funct7_of(pack_r(funct7, rs1, rs2, funct3, rd, opcode)) == funct7,
{
}

/// Fields read back from an I-type word are the fields packed into it; a
/// shift amount lands in the rs2 position with a zero funct7.
proof fn lemma_fields_i(imm: u16, rs1: u8, funct3: u8, rd: u8, opcode: u8)
    by (bit_vector)
    requires
        imm < 0x1000,
        rs1 < 32,
        funct3 < 8,
        rd < 32,
        opcode < 128,
    ensures
        opcode_of(pack_i(imm, rs1, funct3, rd, opcode)) == opcode,
        rd_of(pack_i(imm, rs1, funct3, rd, opcode)) == rd,
        funct3_of(pack_i(imm, rs1, funct3, rd, opcode)) == funct3,
        rs1_of(pack_i(imm, rs1, funct3, rd, opcode)) == rs1,
        imm_i_of(pack_i(imm, rs1, funct3, rd, opcode)) == imm,
        imm < 32 ==> rs2_of(pack_i(imm, rs1, funct3, rd, opcode)) == imm as u8,
        imm < 32 ==> funct7_of(pack_i(imm, rs1, funct3, rd, opcode)) == 0,
        imm < 32 ==> rs2_of(pack_i(0x400u16 | imm, rs1, funct3, rd, opcode)) == imm as u8,
        imm < 32 ==> funct7_of(pack_i(0x400u16 | imm, rs1, funct3, rd, opcode)) == 0x20,
        imm < 32 ==> opcode_of(pack_i(0x400u16 | imm, rs1, funct3, rd, opcode)) == opcode,
        imm < 32 ==> rd_of(pack_i(0x400u16 | imm, rs1, funct3, rd, opcode)) == rd,
        imm < 32 ==> funct3_of(pack_i(0x400u16 | imm, rs1, funct3, rd, opcode)) == funct3,
        imm < 32 ==> rs1_of(pack_i(0x400u16 | imm, rs1, funct3, rd, opcode)) == rs1,
{
}

/// Fields read back from an S-type word are the fields packed into it.
proof fn lemma_fields_s(imm: u16, rs1: u8, rs2: u8, funct3: u8, opcode: u8)
    by (bit_vector)
    requires
        imm < 0x1000,
        rs1 < 32,
        rs2 < 32,
        funct3 < 8,
        opcode < 128,
    ensures
        opcode_of(pack_s(imm, rs1, rs2, funct3, opcode)) == opcode,
        funct3_of(pack_s(imm, rs1, rs2, funct3, opcode)) == funct3,
        rs1_of(pack_s(imm, rs1, rs2, funct3, opcode)) == rs1,
        rs2_of(pack_s(imm, rs1, rs2, funct3, opcode)) == rs2,
        imm_s_of(pack_s(imm, rs1, rs2, funct3, opcode)) == imm,
{
}

/// Fields read back from a B-type word are the fields packed into it.
proof fn lemma_fields_b(imm: u16, rs1: u8, rs2: u8, funct3: u8, opcode: u8)
    by (bit_vector)
    requires
        imm < 0x2000,
        imm % 2 == 0,
        rs1 < 32,
        rs2 < 32,
        funct3 < 8,
        opcode < 128,
    ensures
        opcode_of(pack_b(imm, rs1, rs2, funct3, opcode)) == opcode,
        funct3_of(pack_b(imm, rs1, rs2, funct3, opcode)) == funct3,
        rs1_of(pack_b(imm, rs1, rs2, funct3, opcode)) == rs1,
        rs2_of(pack_b(imm, rs1, rs2, funct3, opcode)) == rs2,
        imm_b_of(pack_b(imm, rs1, rs2, funct3, opcode)) == imm,
{
}

/// Fields read back from a U-type word are the fields packed into it.
proof fn lemma_fields_u(imm: u32, rd: u8, opcode: u8)
    by (bit_vector)
    requires
        imm & 0xFFF == 0,
        rd < 32,
        opcode < 128,
    ensures
        opcode_of(pack_u(imm, rd, opcode)) == opcode,
        rd_of(pack_u(imm, rd, opcode)) == rd,
        imm_u_of(pack_u(imm, rd, opcode)) == imm,
{
}

/// Fields read back from a J-type word are the fields packed into it.
proof fn lemma_fields_j(imm: u32, rd: u8, opcode: u8)
    by (bit_vector)
    requires
        imm < 0x20_0000,
        imm % 2 == 0,
        rd < 32,
        opcode < 128,
    ensures
        opcode_of(pack_j(imm, rd, opcode)) == opcode,
        rd_of(pack_j(imm, rd, opcode)) == rd,
        imm_j_of(pack_j(imm, rd, opcode)) == imm,
{
}

/// The FENCE immediate splits back into its three fields.
proof fn lemma_fence_imm(succ: u8, pred: u8, fm: u8)
    by (bit_vector)
    requires
        succ < 16,
        pred < 16,
        fm < 16,
    ensures
        fence_imm(succ, pred, fm) < 0x1000,
        (fence_imm(succ, pred, fm) & 0xF) as u8 == succ,
        ((fence_imm(succ, pred, fm) >> 4) & 0xF) as u8 == pred,
        (fence_imm(succ, pred, fm) >> 8) as u8 == fm,
{
}

/// Decoding the encoding of any instruction whose fields fit their hardware
/// fields gives that instruction back.
pub proof fn lemma_decode_encode(instr: Instruction)
    requires
        instr.wf(),
    ensures
        decode_spec(encode_spec(instr)) == Some(instr),
{
    match instr {
        Instruction::RV32I(i) => match i {
            RV32IInstuction::ADDI { rd, rs1, imm } => lemma_fields_i(imm, rs1, 0b000, rd, OP_IMM),
            RV32IInstuction::SLTI { rd, rs1, imm } => lemma_fields_i(imm, rs1, 0b010, rd, OP_IMM),
            RV32IInstuction::SLTIU { rd, rs1, imm } => lemma_fields_i(imm, rs1, 0b011, rd, OP_IMM),
            RV32IInstuction::XORI { rd, rs1, imm } => lemma_fields_i(imm, rs1, 0b100, rd, OP_IMM),
            RV32IInstuction::ORI { rd, rs1, imm } => lemma_fields_i(imm, rs1, 0b110, rd, OP_IMM),
            RV32IInstuction::ANDI { rd, rs1, imm } => lemma_fields_i(imm, rs1, 0b111, rd, OP_IMM),
            RV32IInstuction::SLLI { rd, rs1, imm } => lemma_fields_i(imm as u16, rs1, 0b001, rd, OP_IMM),
            RV32IInstuction::SRLI { rd, rs1, imm } => lemma_fields_i(imm as u16, rs1, 0b101, rd, OP_IMM),
            RV32IInstuction::SRAI { rd, rs1, imm } => lemma_fields_i(imm as u16, rs1, 0b101, rd, OP_IMM),
            RV32IInstuction::LUI { rd, imm } => lemma_fields_u(imm, rd, OP_LUI),
            RV32IInstuction::AUIPC { rd, imm } => lemma_fields_u(imm, rd, OP_AUIPC),
            RV32IInstuction::ADD { rd, rs1, rs2 } => lemma_fields_r(0, rs1, rs2, 0b000, rd, OP_REG),
            RV32IInstuction::SUB { rd, rs1, rs2 } => lemma_fields_r(FUNCT7_ALT, rs1, rs2, 0b000, rd, OP_REG),
            RV32IInstuction::SLL { rd, rs1, rs2 } => lemma_fields_r(0, rs1, rs2, 0b001, rd, OP_REG),
            RV32IInstuction::SLT { rd, rs1, rs2 } => lemma_fields_r(0, rs1, rs2, 0b010, rd, OP_REG),
            RV32IInstuction::SLTU { rd, rs1, rs2 } => lemma_fields_r(0, rs1, rs2, 0b011, rd, OP_REG),
            RV32IInstuction::XOR { rd, rs1, rs2 } => lemma_fields_r(0, rs1, rs2, 0b100, rd, OP_REG),
            RV32IInstuction::SRL { rd, rs1, rs2 } => lemma_fields_r(0, rs1, rs2, 0b101, rd, OP_REG),
            RV32IInstuction::SRA { rd, rs1, rs2 } => lemma_fields_r(FUNCT7_ALT, rs1, rs2, 0b101, rd, OP_REG),
            RV32IInstuction::OR { rd, rs1, rs2 } => lemma_fields_r(0, rs1, rs2, 0b110, rd, OP_REG),
            RV32IInstuction::AND { rd, rs1, rs2 } => lemma_fields_r(0, rs1, rs2, 0b111, rd, OP_REG),
            RV32IInstuction::JAL { rd, imm } => lemma_fields_j(imm, rd, OP_JAL),
            RV32IInstuction::JALR { rd, rs1, imm } => lemma_fields_i(imm, rs1, 0b000, rd, OP_JALR),
            RV32IInstuction::BEQ { rs1, rs2, imm } => lemma_fields_b(imm, rs1, rs2, 0b000, OP_BRANCH),
            RV32IInstuction::BNE { rs1, rs2, imm } => lemma_fields_b(imm, rs1, rs2, 0b001, OP_BRANCH),
            RV32IInstuction::BLT { rs1, rs2, imm } => lemma_fields_b(imm, rs1, rs2, 0b100, OP_BRANCH),
            RV32IInstuction::BGE { rs1, rs2, imm } => lemma_fields_b(imm, rs1, rs2, 0b101, OP_BRANCH),
            RV32IInstuction::BLTU { rs1, rs2, imm } => lemma_fields_b(imm, rs1, rs2, 0b110, OP_BRANCH),
            RV32IInstuction::BGEU { rs1, rs2, imm } => lemma_fields_b(imm, rs1, rs2, 0b111, OP_BRANCH),
            RV32IInstuction::LB { rd, rs1, imm } => lemma_fields_i(imm, rs1, 0b000, rd, OP_LOAD),
            RV32IInstuction::LH { rd, rs1, imm } => lemma_fields_i(imm, rs1, 0b001, rd, OP_LOAD),
            RV32IInstuction::LW { rd, rs1, imm } => lemma_fields_i(imm, rs1, 0b010, rd, OP_LOAD),
            RV32IInstuction::LBU { rd, rs1, imm } => lemma_fields_i(imm, rs1, 0b100, rd, OP_LOAD),
            RV32IInstuction::LHU { rd, rs1, imm } => lemma_fields_i(imm, rs1, 0b101, rd, OP_LOAD),
            RV32IInstuction::SB { rs1, rs2, imm } => lemma_fields_s(imm, rs1, rs2, 0b000, OP_STORE),
            RV32IInstuction::SH { rs1, rs2, imm } => lemma_fields_s(imm, rs1, rs2, 0b001, OP_STORE),
            RV32IInstuction::SW { rs1, rs2, imm } => lemma_fields_s(imm, rs1, rs2, 0b010, OP_STORE),
            RV32IInstuction::FENCE { rd, rs1, succ, pred, fm } => {
                lemma_fence_imm(succ, pred, fm);
                lemma_fields_i(fence_imm(succ, pred, fm), rs1, 0b000, rd, OP_MISC_MEM);
            },
            RV32IInstuction::ECALL => lemma_fields_i(0, 0, 0b000, 0, OP_SYSTEM),
            RV32IInstuction::EBREAK => {
                lemma_fields_i(0, 0, 0b000, 0, OP_SYSTEM);
                lemma_fields_i(1, 0, 0b000, 0, OP_SYSTEM);
            },
        },
        Instruction::Zifencei(ZifenceiInstructions::FenceI) => lemma_fields_i(0, 0, 0b001, 0, OP_MISC_MEM),
    }
}

/// A raw 32-bit instruction word.
#[derive(Clone, Copy)]
pub struct InstructionEncoding32(pub u32);

impl InstructionEncoding32 {
    fn opcode(self) -> (r: u8)
        ensures
            r == opcode_of(self.0),
    {
        (self.0 & 0x7F) as u8
    }

    fn rd(self) -> (r: u8)
        ensures
            r == rd_of(self.0),
    {
        ((self.0 >> 7) & 0x1F) as u8
    }

    fn rs1(self) -> (r: u8)
        ensures
            r == rs1_of(self.0),
    {
        ((self.0 >> 15) & 0x1F) as u8
    }

    fn rs2(self) -> (r: u8)
        ensures
            r == rs2_of(self.0),
    {
        ((self.0 >> 20) & 0x1F) as u8
    }

    fn funt3(self) -> (r: u8)
        ensures
            r == funct3_of(self.0),
    {
        ((self.0 >> 12) & 0x7) as u8
    }

    fn funt7(self) -> (r: u8)
        ensures
            r == funct7_of(self.0),
    {
        ((self.0 >> 25) & 0x7F) as u8
    }

    fn imm_i(self) -> (r: u16)
        ensures
            r == imm_i_of(self.0),
    {
        ((self.0 >> 20) & 0xFFF) as u16
    }

    fn imm_s(self) -> (r: u16)
        ensures
            r == imm_s_of(self.0),
    {
        let imm4_0 = (self.0 >> 7) & 0x1F;
        let imm11_5 = (self.0 >> 25) & 0x7F;
        ((imm11_5 << 5) | imm4_0) as u16
    }

    fn imm_b(self) -> (r: u16)
        ensures
            r == imm_b_of(self.0),
    {
        let imm11 = (self.0 >> 7) & 0x1;
        let imm4_1 = (self.0 >> 8) & 0xF;
        let imm10_5 = (self.0 >> 25) & 0x3F;
        let imm12 = (self.0 >> 31) & 0x1;
        ((imm12 << 12) | (imm11 << 11) | (imm10_5 << 5) | (imm4_1 << 1)) as u16
    }

    fn imm_u(self) -> (r: u32)
        ensures
            r == imm_u_of(self.0),
    {
        self.0 & 0xFFFF_F000
    }

    fn imm_j(self) -> (r: u32)
        ensures
            r == imm_j_of(self.0),
    {
        let imm19_12 = (self.0 >> 12) & 0xFF;
        let imm11 = (self.0 >> 20) & 0x1;
        let imm10_1 = (self.0 >> 21) & 0x3FF;
        let imm20 = (self.0 >> 31) & 0x1;
        (imm20 << 20) | (imm19_12 << 12) | (imm11 << 11) | (imm10_1 << 1)
    }

    fn encode_r(funct7: u8, rs1: u8, rs2: u8, funct3: u8, rd: u8, opcode: u8) -> (r: Self)
        ensures
            r.0 == pack_r(funct7, rs1, rs2, funct3, rd, opcode),
    {
        Self(
            (funct7 as u32) << 25 | (rs2 as u32) << 20 | (rs1 as u32) << 15 | (funct3 as u32) << 12
                | (rd as u32) << 7 | (opcode as u32),
        )
    }

    fn encode_i(imm: u16, rs1: u8, funct3: u8, rd: u8, opcode: u8) -> (r: Self)
        ensures
            r.0 == pack_i(imm, rs1, funct3, rd, opcode),
    {
        Self(
            (imm as u32) << 20 | (rs1 as u32) << 15 | (funct3 as u32) << 12 | (rd as u32) << 7
                | (opcode as u32),
        )
    }

    fn encode_s(imm: u16, rs1: u8, rs2: u8, funct3: u8, opcode: u8) -> (r: Self)
        ensures
            r.0 == pack_s(imm, rs1, rs2, funct3, opcode),
    {
        Self(
            (((imm as u32) >> 5) & 0x7F) << 25 | (rs2 as u32) << 20 | (rs1 as u32) << 15 | (
            funct3 as u32) << 12 | ((imm as u32) & 0x1F) << 7 | (opcode as u32),
        )
    }

    fn encode_b(imm: u16, rs1: u8, rs2: u8, funct3: u8, opcode: u8) -> (r: Self)
        ensures
            r.0 == pack_b(imm, rs1, rs2, funct3, opcode),
    {
        Self(
            (((imm as u32) >> 12) & 0x1) << 31 | (((imm as u32) >> 5) & 0x3F) << 25 | (rs2 as u32)
                << 20 | (rs1 as u32) << 15 | (funct3 as u32) << 12 | (((imm as u32) >> 1) & 0xF)
                << 8 | (((imm as u32) >> 11) & 0x1) << 7 | (opcode as u32),
        )
    }

    fn encode_u(imm: u32, rd: u8, opcode: u8) -> (r: Self)
        ensures
            r.0 == pack_u(imm, rd, opcode),
    {
        Self(imm & 0xFFFF_F000 | (rd as u32) << 7 | (opcode as u32))
    }

    fn encode_j(imm: u32, rd: u8, opcode: u8) -> (r: Self)
        ensures
            r.0 == pack_j(imm, rd, opcode),
    {
        Self(
            ((imm >> 20) & 0x1) << 31 | ((imm >> 1) & 0x3FF) << 21 | ((imm >> 11) & 0x1) << 20 | ((
            imm >> 12) & 0xFF) << 12 | (rd as u32) << 7 | (opcode as u32),
        )
    }

    /// Decodes the word; `None` when its opcode and function fields name no
    /// supported instruction.
    pub fn decode(self) -> (r: Option<Instruction>)
        ensures
            r == decode_spec(self.0),
            r matches Some(i) ==> i.wf(),
            r matches Some(i) ==> (i == Instruction::Zifencei(ZifenceiInstructions::FenceI)
                || encode_spec(i) == self.0),
            forall|i: Instruction| #[trigger] i.wf() && encode_spec(i) == self.0 ==> r == Some(i),
    {
        proof {
            if decode_spec(self.0) is Some {
                lemma_encode_decode(self.0);
            }
            assert forall|i: Instruction| #[trigger] i.wf() && encode_spec(i) == self.0 implies decode_spec(
                self.0,
            ) == Some(i) by {
                lemma_decode_encode(i);
            }
        }
        let rd = self.rd();
        let rs1 = self.rs1();
        let rs2 = self.rs2();
        let f3 = self.funt3();
        let f7 = self.funt7();
        let op = self.opcode();
        proof {
            lemma_decoded_fields_fit(self.0);
            lemma_even16(imm_b_of(self.0));
            lemma_even32(imm_j_of(self.0));
        }
        if op == OP_LOAD {
            let imm = self.imm_i();
            if f3 == 0 {
                Some(Instruction::RV32I(RV32IInstuction::LB { rd, rs1, imm }))
            } else if f3 == 1 {
                Some(Instruction::RV32I(RV32IInstuction::LH { rd, rs1, imm }))
            } else if f3 == 2 {
                Some(Instruction::RV32I(RV32IInstuction::LW { rd, rs1, imm }))
            } else if f3 == 4 {
                Some(Instruction::RV32I(RV32IInstuction::LBU { rd, rs1, imm }))
            } else if f3 == 5 {
                Some(Instruction::RV32I(RV32IInstuction::LHU { rd, rs1, imm }))
            } else {
                None
            }
        } else if op == OP_MISC_MEM {
            let imm = self.imm_i();
            if f3 == 0 {
                let succ = (imm & 0xF) as u8;
                let pred = ((imm >> 4) & 0xF) as u8;
                let fm = (imm >> 8) as u8;
                Some(Instruction::RV32I(RV32IInstuction::FENCE { rd, rs1, succ, pred, fm }))
            } else if f3 == 1 {
                Some(Instruction::Zifencei(ZifenceiInstructions::FenceI))
            } else {
                None
            }
        } else if op == OP_IMM {
            let imm = self.imm_i();
            if f3 == 0 {
                Some(Instruction::RV32I(RV32IInstuction::ADDI { rd, rs1, imm }))
            } else if f3 == 2 {
                Some(Instruction::RV32I(RV32IInstuction::SLTI { rd, rs1, imm }))
            } else if f3 == 3 {
                Some(Instruction::RV32I(RV32IInstuction::SLTIU { rd, rs1, imm }))
            } else if f3 == 4 {
                Some(Instruction::RV32I(RV32IInstuction::XORI { rd, rs1, imm }))
            } else if f3 == 6 {
                Some(Instruction::RV32I(RV32IInstuction::ORI { rd, rs1, imm }))
            } else if f3 == 7 {
                Some(Instruction::RV32I(RV32IInstuction::ANDI { rd, rs1, imm }))
            } else if f3 == 1 {
                if f7 == 0 {
                    Some(Instruction::RV32I(RV32IInstuction::SLLI { rd, rs1, imm: rs2 }))
                } else {
                    None
                }
            } else {
                if f7 == 0 {
                    Some(Instruction::RV32I(RV32IInstuction::SRLI { rd, rs1, imm: rs2 }))
                } else if f7 == FUNCT7_ALT {
                    Some(Instruction::RV32I(RV32IInstuction::SRAI { rd, rs1, imm: rs2 }))
                } else {
                    None
                }
            }
        } else if op == OP_AUIPC {
            Some(Instruction::RV32I(RV32IInstuction::AUIPC { rd, imm: self.imm_u() }))
        } else if op == OP_STORE {
            let imm = self.imm_s();
            if f3 == 0 {
                Some(Instruction::RV32I(RV32IInstuction::SB { rs1, rs2, imm }))
            } else if f3 == 1 {
                Some(Instruction::RV32I(RV32IInstuction::SH { rs1, rs2, imm }))
            } else if f3 == 2 {
                Some(Instruction::RV32I(RV32IInstuction::SW { rs1, rs2, imm }))
            } else {
                None
            }
        } else if op == OP_REG {
            if f7 == 0 {
                if f3 == 0 {
                    Some(Instruction::RV32I(RV32IInstuction::ADD { rd, rs1, rs2 }))
                } else if f3 == 1 {
                    Some(Instruction::RV32I(RV32IInstuction::SLL { rd, rs1, rs2 }))
                } else if f3 == 2 {
                    Some(Instruction::RV32I(RV32IInstuction::SLT { rd, rs1, rs2 }))
                } else if f3 == 3 {
                    Some(Instruction::RV32I(RV32IInstuction::SLTU { rd, rs1, rs2 }))
                } else if f3 == 4 {
                    Some(Instruction::RV32I(RV32IInstuction::XOR { rd, rs1, rs2 }))
                } else if f3 == 5 {
                    Some(Instruction::RV32I(RV32IInstuction::SRL { rd, rs1, rs2 }))
                } else if f3 == 6 {
                    Some(Instruction::RV32I(RV32IInstuction::OR { rd, rs1, rs2 }))
                } else {
                    Some(Instruction::RV32I(RV32IInstuction::AND { rd, rs1, rs2 }))
                }
            } else if f7 == FUNCT7_ALT {
                if f3 == 0 {
                    Some(Instruction::RV32I(RV32IInstuction::SUB { rd, rs1, rs2 }))
                } else if f3 == 5 {
                    Some(Instruction::RV32I(RV32IInstuction::SRA { rd, rs1, rs2 }))
                } else {
                    None
                }
            } else {
                None
            }
        } else if op == OP_LUI {
            Some(Instruction::RV32I(RV32IInstuction::LUI { rd, imm: self.imm_u() }))
        } else if op == OP_BRANCH {
            let imm = self.imm_b();
            if f3 == 0 {
                Some(Instruction::RV32I(RV32IInstuction::BEQ { rs1, rs2, imm }))
            } else if f3 == 1 {
                Some(Instruction::RV32I(RV32IInstuction::BNE { rs1, rs2, imm }))
            } else if f3 == 4 {
                Some(Instruction::RV32I(RV32IInstuction::BLT { rs1, rs2, imm }))
            } else if f3 == 5 {
                Some(Instruction::RV32I(RV32IInstuction::BGE { rs1, rs2, imm }))
            } else if f3 == 6 {
                Some(Instruction::RV32I(RV32IInstuction::BLTU { rs1, rs2, imm }))
            } else if f3 == 7 {
                Some(Instruction::RV32I(RV32IInstuction::BGEU { rs1, rs2, imm }))
            } else {
                None
            }
        } else if op == OP_JALR {
            if f3 == 0 {
                Some(Instruction::RV32I(RV32IInstuction::JALR { rd, rs1, imm: self.imm_i() }))
            } else {
                None
            }
        } else if op == OP_JAL {
            Some(Instruction::RV32I(RV32IInstuction::JAL { rd, imm: self.imm_j() }))
        } else if op == OP_SYSTEM {
            if self.0 == Self::encode_i(0, 0, 0b000, 0, OP_SYSTEM).0 {
                Some(Instruction::RV32I(RV32IInstuction::ECALL))
            } else if self.0 == Self::encode_i(1, 0, 0b000, 0, OP_SYSTEM).0 {
                Some(Instruction::RV32I(RV32IInstuction::EBREAK))
            } else {
                None
            }
        } else {
            None
        }
    }

    /// The word that encodes `instr`.
    pub fn encode(instr: Instruction) -> (r: Self)
        ensures
            r.0 == encode_spec(instr),
    {
        match instr {
            Instruction::RV32I(instr) => match instr {
                RV32IInstuction::ADDI { rd, rs1, imm } => Self::encode_i(imm, rs1, 0b000, rd, OP_IMM),
                RV32IInstuction::SLTI { rd, rs1, imm } => Self::encode_i(imm, rs1, 0b010, rd, OP_IMM),
                RV32IInstuction::SLTIU { rd, rs1, imm } => Self::encode_i(imm, rs1, 0b011, rd, OP_IMM),
                RV32IInstuction::XORI { rd, rs1, imm } => Self::encode_i(imm, rs1, 0b100, rd, OP_IMM),
                RV32IInstuction::ORI { rd, rs1, imm } => Self::encode_i(imm, rs1, 0b110, rd, OP_IMM),
                RV32IInstuction::ANDI { rd, rs1, imm } => Self::encode_i(imm, rs1, 0b111, rd, OP_IMM),
                RV32IInstuction::SLLI { rd, rs1, imm } => Self::encode_i(imm as u16, rs1, 0b001, rd, OP_IMM),
                RV32IInstuction::SRLI { rd, rs1, imm } => Self::encode_i(imm as u16, rs1, 0b101, rd, OP_IMM),
                RV32IInstuction::SRAI { rd, rs1, imm } => Self::encode_i(
                    0b0100000_00000u16 | (imm as u16),
                    rs1,
                    0b101,
                    rd,
                    OP_IMM,
                ),
                RV32IInstuction::LUI { rd, imm } => Self::encode_u(imm, rd, OP_LUI),
                RV32IInstuction::AUIPC { rd, imm } => Self::encode_u(imm, rd, OP_AUIPC),
                RV32IInstuction::ADD { rd, rs1, rs2 } => Self::encode_r(0, rs1, rs2, 0b000, rd, OP_REG),
                RV32IInstuction::SUB { rd, rs1, rs2 } => Self::encode_r(FUNCT7_ALT, rs1, rs2, 0b000, rd, OP_REG),
                RV32IInstuction::SLL { rd, rs1, rs2 } => Self::encode_r(0, rs1, rs2, 0b001, rd, OP_REG),
                RV32IInstuction::SLT { rd, rs1, rs2 } => Self::encode_r(0, rs1, rs2, 0b010, rd, OP_REG),
                RV32IInstuction::SLTU { rd, rs1, rs2 } => Self::encode_r(0, rs1, rs2, 0b011, rd, OP_REG),
                RV32IInstuction::XOR { rd, rs1, rs2 } => Self::encode_r(0, rs1, rs2, 0b100, rd, OP_REG),
                RV32IInstuction::SRL { rd, rs1, rs2 } => Self::encode_r(0, rs1, rs2, 0b101, rd, OP_REG),
                RV32IInstuction::SRA { rd, rs1, rs2 } => Self::encode_r(FUNCT7_ALT, rs1, rs2, 0b101, rd, OP_REG),
                RV32IInstuction::OR { rd, rs1, rs2 } => Self::encode_r(0, rs1, rs2, 0b110, rd, OP_REG),
                RV32IInstuction::AND { rd, rs1, rs2 } => Self::encode_r(0, rs1, rs2, 0b111, rd, OP_REG),
                RV32IInstuction::JAL { rd, imm } => Self::encode_j(imm, rd, OP_JAL),
                RV32IInstuction::JALR { rd, rs1, imm } => Self::encode_i(imm, rs1, 0b000, rd, OP_JALR),
                RV32IInstuction::BEQ { rs1, rs2, imm } => Self::encode_b(imm, rs1, rs2, 0b000, OP_BRANCH),
                RV32IInstuction::BNE { rs1, rs2, imm } => Self::encode_b(imm, rs1, rs2, 0b001, OP_BRANCH),
                RV32IInstuction::BLT { rs1, rs2, imm } => Self::encode_b(imm, rs1, rs2, 0b100, OP_BRANCH),
                RV32IInstuction::BGE { rs1, rs2, imm } => Self::encode_b(imm, rs1, rs2, 0b101, OP_BRANCH),
                RV32IInstuction::BLTU { rs1, rs2, imm } => Self::encode_b(imm, rs1, rs2, 0b110, OP_BRANCH),
                RV32IInstuction::BGEU { rs1, rs2, imm } => Self::encode_b(imm, rs1, rs2, 0b111, OP_BRANCH),
                RV32IInstuction::LB { rd, rs1, imm } => Self::encode_i(imm, rs1, 0b000, rd, OP_LOAD),
                RV32IInstuction::LH { rd, rs1, imm } => Self::encode_i(imm, rs1, 0b001, rd, OP_LOAD),
                RV32IInstuction::LW { rd, rs1, imm } => Self::encode_i(imm, rs1, 0b010, rd, OP_LOAD),
                RV32IInstuction::LBU { rd, rs1, imm } => Self::encode_i(imm, rs1, 0b100, rd, OP_LOAD),
                RV32IInstuction::LHU { rd, rs1, imm } => Self::encode_i(imm, rs1, 0b101, rd, OP_LOAD),
                RV32IInstuction::SB { rs1, rs2, imm } => Self::encode_s(imm, rs1, rs2, 0b000, OP_STORE),
                RV32IInstuction::SH { rs1, rs2, imm } => Self::encode_s(imm, rs1, rs2, 0b001, OP_STORE),
                RV32IInstuction::SW { rs1, rs2, imm } => Self::encode_s(imm, rs1, rs2, 0b010, OP_STORE),
                RV32IInstuction::FENCE { rd, rs1, succ, pred, fm } => Self::encode_i(
                    ((fm as u16) << 8) | ((pred as u16) << 4) | (succ as u16),
                    rs1,
                    0b000,
                    rd,
                    OP_MISC_MEM,
                ),
                RV32IInstuction::ECALL => Self::encode_i(0, 0, 0b000, 0, OP_SYSTEM),
                RV32IInstuction::EBREAK => Self::encode_i(1, 0, 0b000, 0, OP_SYSTEM),
            },
            Instruction::Zifencei(instr) => match instr {
                ZifenceiInstructions::FenceI => Self::encode_i(0, 0, 0b001, 0, OP_MISC_MEM),
            },
        }
    }
}

/// Every field read out of a word fits its hardware field.
proof fn lemma_decoded_fields_fit(w: u32)
    by (bit_vector)
    ensures
        funct3_of(w) < 8,
        rd_of(w) < 32,
        rs1_of(w) < 32,
        rs2_of(w) < 32,
        imm_i_of(w) < 0x1000,
        imm_s_of(w) < 0x1000,
        imm_b_of(w) < 0x2000,
        imm_u_of(w) & 0xFFF == 0,
        imm_j_of(w) < 0x20_0000,
        imm_b_of(w) & 1 == 0,
        imm_j_of(w) & 1 == 0,
        (imm_i_of(w) & 0xF) < 16,
        ((imm_i_of(w) >> 4) & 0xF) < 16,
        (imm_i_of(w) >> 8) < 16,
{
}

/// A value whose bit 0 is clear is even.
proof fn lemma_even32(x: u32)
    by (bit_vector)
    requires
        x & 1 == 0,
    ensures
        x % 2 == 0,
{
}

/// A value whose bit 0 is clear is even.
proof fn lemma_even16(x: u16)
    by (bit_vector)
    requires
        x & 1 == 0,
    ensures
        x % 2 == 0,
{
}

/// Every word is the packing of the fields read out of it, in each layout.
proof fn lemma_repack(w: u32)
    by (bit_vector)
    ensures
        w == pack_r(funct7_of(w), rs1_of(w), rs2_of(w), funct3_of(w), rd_of(w), opcode_of(w)),
        w == pack_i(imm_i_of(w), rs1_of(w), funct3_of(w), rd_of(w), opcode_of(w)),
        w == pack_s(imm_s_of(w), rs1_of(w), rs2_of(w), funct3_of(w), opcode_of(w)),
        w == pack_b(imm_b_of(w), rs1_of(w), rs2_of(w), funct3_of(w), opcode_of(w)),
        w == pack_u(imm_u_of(w), rd_of(w), opcode_of(w)),
        w == pack_j(imm_j_of(w), rd_of(w), opcode_of(w)),
        funct7_of(w) == 0 ==> w == pack_i(rs2_of(w) as u16, rs1_of(w), funct3_of(w), rd_of(w), opcode_of(w)),
        funct7_of(w) == 0x20 ==> w == pack_i(
            0x400u16 | (rs2_of(w) as u16),
            rs1_of(w),
            funct3_of(w),
            rd_of(w),
            opcode_of(w),
        ),
        fence_imm(
            (imm_i_of(w) & 0xF) as u8,
            ((imm_i_of(w) >> 4) & 0xF) as u8,
            (imm_i_of(w) >> 8) as u8,
        ) == imm_i_of(w),
{
}

/// Encoding what a word decodes to gives the word back, except for the
/// instruction-fetch fence, whose other fields are ignored by the decoder.
pub proof fn lemma_encode_decode(w: u32)
    requires
        decode_spec(w) is Some,
    ensures
        decode_spec(w)->0.wf(),
        decode_spec(w)->0 != Instruction::Zifencei(ZifenceiInstructions::FenceI) ==> encode_spec(
            decode_spec(w)->0,
        ) == w,
{
    lemma_repack(w);
    lemma_decoded_fields_fit(w);
    lemma_even16(imm_b_of(w));
    lemma_even32(imm_j_of(w));
}

} // verus!
