//! Descriptive metadata about the base and extension instruction sets, for
//! display and introspection only: nothing here changes how instructions
//! decode or execute.
use vstd::prelude::*;

use crate::instructions::{RV32IInstuction, ZifenceiInstructions};

verus! {

/// Number of register widths an instruction set can have.
pub const ISA_SIZE_COUNT: usize = 5;

/// Number of base instruction sets.
pub const BASE_ISA_COUNT: usize = 6;

/// Number of named extensions.
pub const EXTENSION_COUNT: usize = 30;

/// Number of instructions in the base integer group.
pub const RV32I_INSTRUCTION_COUNT: usize = 40;

/// Number of instructions in the instruction-fetch fence group.
pub const ZIFENCEI_INSTRUCTION_COUNT: usize = 1;

/// The number of variants of an enum.
pub trait EnumCountT {
    /// Number of variants.
    const COUNT: usize;
}

/// Conversion from a variant's position to the variant.
pub trait EnumFromIndexT: Sized {
    /// The variant at `idx`, if there is one.
    fn from_idx(idx: usize) -> Option<Self>;
}

#[derive(Clone, Copy, PartialEq, Eq, Debug, Structural)]
pub enum IsaStatus {
    /// ISA has been ratified
    Ratified,
    /// ISA is in the drafting stage
    Draft,
}

impl IsaStatus {
    /// The status as a lower-case word.
    pub fn name(&self) -> (r: &'static str)
        ensures
            r@ == (if *self == IsaStatus::Ratified { "ratified"@ } else { "draft"@ }),
    {
        match self {
            IsaStatus::Ratified => "ratified",
            IsaStatus::Draft => "draft",
        }
    }
}

#[derive(Clone, Copy, PartialEq, Eq, Debug, Structural)]
pub enum IsaSize {
    Size8,
    Size16,
    Size32,
    Size64,
    Size128,
}

impl IsaSize {
    /// Position of the width among the five widths, narrowest first.
    pub open spec fn index_spec(self) -> nat {
        match self {
            IsaSize::Size8 => 0,
            IsaSize::Size16 => 1,
            IsaSize::Size32 => 2,
            IsaSize::Size64 => 3,
            IsaSize::Size128 => 4,
        }
    }

    pub fn index(self) -> (r: usize)
        ensures
            r == self.index_spec(),
    {
        match self {
            IsaSize::Size8 => 0,
            IsaSize::Size16 => 1,
            IsaSize::Size32 => 2,
            IsaSize::Size64 => 3,
            IsaSize::Size128 => 4,
        }
    }

    /// The register width in bits: 8 times two to the power of the index.
    pub fn bits(self) -> (r: u32)
        ensures
            r == 8 * vstd::arithmetic::power2::pow2(self.index_spec()),
    {
        proof {
            vstd::arithmetic::power2::lemma2_to64();
        }
        match self {
            IsaSize::Size8 => 8,
            IsaSize::Size16 => 16,
            IsaSize::Size32 => 32,
            IsaSize::Size64 => 64,
            IsaSize::Size128 => 128,
        }
    }
}

impl EnumCountT for IsaSize {
    const COUNT: usize = ISA_SIZE_COUNT;
}

impl EnumFromIndexT for IsaSize {
    fn from_idx(idx: usize) -> Option<Self> {
        if idx == 0 {
            Some(IsaSize::Size8)
        } else if idx == 1 {
            Some(IsaSize::Size16)
        } else if idx == 2 {
            Some(IsaSize::Size32)
        } else if idx == 3 {
            Some(IsaSize::Size64)
        } else if idx == 4 {
            Some(IsaSize::Size128)
        } else {
            None
        }
    }
}

/// The base instruction sets.
#[derive(Clone, Copy, PartialEq, Eq, Debug, Structural)]
pub enum BaseIsa {
    RVWMO,
    RV32I,
    RV32E,
    RV64I,
    RV64E,
    RV128I,
}

impl EnumCountT for BaseIsa {
    const COUNT: usize = BASE_ISA_COUNT;
}

/// A set of extensions, one bit per named extension.
#[derive(Clone, Copy, PartialEq, Eq, Debug, Structural)]
pub struct ExtensionIsa {
    pub bits: u32,
}

impl ExtensionIsa {
    /// The empty set.
    pub fn none() -> (r: Self)
        ensures
            r.bits == 0,
    {
        ExtensionIsa { bits: 0 }
    }

    /// The `M` extension alone.
    pub fn m() -> (r: Self)
        ensures
            r.bits == 0x1,
    {
        ExtensionIsa { bits: 0x1 }
    }

    /// The `A` extension alone.
    pub fn a() -> (r: Self)
        ensures
            r.bits == 0x2,
    {
        ExtensionIsa { bits: 0x2 }
    }

    /// The `F` extension alone.
    pub fn f() -> (r: Self)
        ensures
            r.bits == 0x4,
    {
        ExtensionIsa { bits: 0x4 }
    }

    /// The `D` extension alone.
    pub fn d() -> (r: Self)
        ensures
            r.bits == 0x8,
    {
        ExtensionIsa { bits: 0x8 }
    }

    /// The `Zicsr` extension alone.
    pub fn zicsr() -> (r: Self)
        ensures
            r.bits == 0x10,
    {
        ExtensionIsa { bits: 0x10 }
    }

    /// The `Zifencei` extension alone.
    pub fn zifencei() -> (r: Self)
        ensures
            r.bits == 0x20,
    {
        ExtensionIsa { bits: 0x20 }
    }

    /// `G`: shorthand for M, A, F, D, Zicsr and Zifencei together.
    pub fn g() -> (r: Self)
        ensures
            r.bits == 0x3f,
    {
        ExtensionIsa { bits: 0x3f }
    }

    /// The `Q` extension alone.
    pub fn q() -> (r: Self)
        ensures
            r.bits == 0x40,
    {
        ExtensionIsa { bits: 0x40 }
    }

    /// The `L` extension alone.
    pub fn l() -> (r: Self)
        ensures
            r.bits == 0x80,
    {
        ExtensionIsa { bits: 0x80 }
    }

    /// The `C` extension alone.
    pub fn c() -> (r: Self)
        ensures
            r.bits == 0x100,
    {
        ExtensionIsa { bits: 0x100 }
    }

    /// The `B` extension alone.
    pub fn b() -> (r: Self)
        ensures
            r.bits == 0x200,
    {
        ExtensionIsa { bits: 0x200 }
    }

    /// The `J` extension alone.
    pub fn j() -> (r: Self)
        ensures
            r.bits == 0x400,
    {
        ExtensionIsa { bits: 0x400 }
    }

    /// The `T` extension alone.
    pub fn t() -> (r: Self)
        ensures
            r.bits == 0x800,
    {
        ExtensionIsa { bits: 0x800 }
    }

    /// The `P` extension alone.
    pub fn p() -> (r: Self)
        ensures
            r.bits == 0x1000,
    {
        ExtensionIsa { bits: 0x1000 }
    }

    /// The `V` extension alone.
    pub fn v() -> (r: Self)
        ensures
            r.bits == 0x2000,
    {
        ExtensionIsa { bits: 0x2000 }
    }

    /// The `Zk` extension alone.
    pub fn zk() -> (r: Self)
        ensures
            r.bits == 0x4000,
    {
        ExtensionIsa { bits: 0x4000 }
    }

    /// The `H` extension alone.
    pub fn h() -> (r: Self)
        ensures
            r.bits == 0x8000,
    {
        ExtensionIsa { bits: 0x8000 }
    }

    /// The `S` extension alone.
    pub fn s() -> (r: Self)
        ensures
            r.bits == 0x10000,
    {
        ExtensionIsa { bits: 0x10000 }
    }

    /// The `Zam` extension alone.
    pub fn zam() -> (r: Self)
        ensures
            r.bits == 0x20000,
    {
        ExtensionIsa { bits: 0x20000 }
    }

    /// The `Zihintpause` extension alone.
    pub fn zihintpause() -> (r: Self)
        ensures
            r.bits == 0x40000,
    {
        ExtensionIsa { bits: 0x40000 }
    }

    /// The `Zihintntl` extension alone.
    pub fn zihintntl() -> (r: Self)
        ensures
            r.bits == 0x80000,
    {
        ExtensionIsa { bits: 0x80000 }
    }

    /// The `Zfa` extension alone.
    pub fn zfa() -> (r: Self)
        ensures
            r.bits == 0x100000,
    {
        ExtensionIsa { bits: 0x100000 }
    }

    /// The `Zfh` extension alone.
    pub fn zfh() -> (r: Self)
        ensures
            r.bits == 0x200000,
    {
        ExtensionIsa { bits: 0x200000 }
    }

    /// The `Zfhmin` extension alone.
    pub fn zfhmin() -> (r: Self)
        ensures
            r.bits == 0x400000,
    {
        ExtensionIsa { bits: 0x400000 }
    }

    /// The `Zfinx` extension alone.
    pub fn zfinx() -> (r: Self)
        ensures
            r.bits == 0x800000,
    {
        ExtensionIsa { bits: 0x800000 }
    }

    /// The `Zdinx` extension alone.
    pub fn zdinx() -> (r: Self)
        ensures
            r.bits == 0x1000000,
    {
        ExtensionIsa { bits: 0x1000000 }
    }

    /// The `Zhinx` extension alone.
    pub fn zhinx() -> (r: Self)
        ensures
            r.bits == 0x2000000,
    {
        ExtensionIsa { bits: 0x2000000 }
    }

    /// The `Zhinxmin` extension alone.
    pub fn zhinxmin() -> (r: Self)
        ensures
            r.bits == 0x4000000,
    {
        ExtensionIsa { bits: 0x4000000 }
    }

    /// The `Zmmul` extension alone.
    pub fn zmmul() -> (r: Self)
        ensures
            r.bits == 0x8000000,
    {
        ExtensionIsa { bits: 0x8000000 }
    }

    /// The `Zlso` extension alone.
    pub fn zlso() -> (r: Self)
        ensures
            r.bits == 0x10000000,
    {
        ExtensionIsa { bits: 0x10000000 }
    }

    /// The extensions in either set.
    pub fn union(self, other: Self) -> (r: Self)
        ensures
            r.bits == self.bits | other.bits,
    {
        ExtensionIsa { bits: self.bits | other.bits }
    }

    /// Whether every extension of `other` is in this set.
    pub fn contains(self, other: Self) -> (r: bool)
        ensures
            r == (self.bits & other.bits == other.bits),
    {
        self.bits & other.bits == other.bits
    }
}

impl EnumCountT for ExtensionIsa {
    const COUNT: usize = EXTENSION_COUNT;
}

impl EnumCountT for RV32IInstuction {
    const COUNT: usize = RV32I_INSTRUCTION_COUNT;
}

impl EnumCountT for ZifenceiInstructions {
    const COUNT: usize = ZIFENCEI_INSTRUCTION_COUNT;
}

#[derive(Clone, Copy, PartialEq, Eq, Debug)]
pub struct InstructionInfo {
    /// Instruction name
    pub name: &'static str,
    /// Instruction mnemonic
    pub mnemonic: &'static str,
    /// Instruction encoding
    pub encoding: &'static str,
    /// Instruction description
    pub desc: &'static str,
}

#[derive(Clone, Debug)]
pub struct BaseIsaInfo {
    /// Name of the base ISA
    pub name: &'static str,
    /// Description of the base ISA
    pub desc: &'static str,
    /// Version of the base ISA
    pub version: &'static str,
    /// Status of the base ISA
    pub status: IsaStatus,
    /// Size of the isa
    pub size: IsaSize,
    /// Instructions
    pub instructions: Option<Vec<InstructionInfo>>,
}

#[derive(Clone, Debug)]
pub struct ExtensionIsaInfo {
    /// Name of the extension ISA
    pub name: &'static str,
    /// Description of the extension ISA
    pub desc: &'static str,
    /// Version of the extension ISA
    pub version: &'static str,
    /// Status of the extension ISA
    pub status: IsaStatus,
    /// Instructions per ISA size, narrowest first
    pub instructions: [Option<Vec<InstructionInfo>>; 5],
}

impl ExtensionIsaInfo {
    /// Number of instructions the extension has at register width `isa`.
    pub open spec fn instruction_count_spec(&self, isa: IsaSize) -> nat {
        match self.instructions@[isa.index_spec() as int] {
            Some(v) => v@.len(),
            None => 0,
        }
    }

    /// Get the instruction count for a given ISA size
    pub fn instruction_count(&self, isa: IsaSize) -> (r: u32)
        ensures
            r == self.instruction_count_spec(isa) as u32,
    {
        match &self.instructions[isa.index()] {
            Some(instrs) => instrs.len() as u32,
            None => 0,
        }
    }
}

pub fn rv32i_instruction_info() -> (r: Vec<InstructionInfo>)
    ensures
        r@.len() == RV32I_INSTRUCTION_COUNT,
{
    vec![
        InstructionInfo {
            name: "ADDI",
            mnemonic: "addi rd, rs1, imm",
            encoding: "I-Type:   iiiiiiiiiiii_aaaaa_000_ddddd_0010011",
            desc: "Adds the sign extended 12-bit immediate to register rs1. Arithmetic overflow is ignored and the result is simply the low XLEN bits of the result. `ADDI rd, rs1, 0` is used to implement the `MV rd rs1` assembler pseudo-instruction.",
        },
        InstructionInfo {
            name: "SLTI",
            mnemonic: "slti rd, rs1, imm",
            encoding: "I-Type:   iiiiiiiiiiii_aaaaa_010_ddddd_0010011",
            desc: "Set less than immediate. Places the value 1 in register rd if register rs1 is less than the sign-extended immediate when both are treated as signed numbers, else 0 is written to rd.",
        },
        InstructionInfo {
            name: "SLTIU",
            mnemonic: "sltiu rd, rs1, imm",
            encoding: "I-Type:   iiiiiiiiiiii_aaaaa_011_ddddd_0010011",
            desc: "Set less than immediate. Places the value 1 in register rd if register rs1 is less than the sign-extended immediate when both are treated as unsigned numbers, else 0 is written to rd. Note: `SLTIU rd, rs1, 1` sets rd to 1 if rs1 equals zero, otehrwise sets rd to 0 (assembler pseudo-instruction `SEQZ rd, rs`).",
        },
        InstructionInfo {
            name: "XORI",
            mnemonic: "xori rd, rs1, imm",
            encoding: "I-Type:   iiiiiiiiiiii_aaaaa_100_ddddd_0010011",
            desc: "Logical operation that performs a bitwise XOR on register rs1 and the sign-extended 12-bit immediate and places the result in rd. Note: `XORI rd, rs1, -1` performs a bitwise logical inversion of register rs1 (assember pseudo-instruction `NOT rd, rs`).",
        },
        InstructionInfo {
            name: "ORI",
            mnemonic: "ori rd, rs1, imm",
            encoding: "I-Type:   iiiiiiiiiiii_aaaaa_110_ddddd_0010011",
            desc: "Logical operation that performs a bitwise OR on register rs1 and the sign-extended 12-bit immediate and places the result in rd.",
        },
        InstructionInfo {
            name: "ANDI",
            mnemonic: "andi rd, rs1, imm",
            encoding: "I-Type:   iiiiiiiiiiii_aaaaa_111_ddddd_0010011",
            desc: "Logical operation that performs a bitwise AND on register rs1 and the sign-extended 12-bit immediate and places the result in rd.",
        },
        InstructionInfo {
            name: "SLLI",
            mnemonic: "slli rd, rs1, imm",
            encoding: "I-Type:   0000000iiiii_aaaaa_001_ddddd_0010011",
            desc: "Logical left shift (zeroes are shifted into the lower bits).",
        },
        InstructionInfo {
            name: "SRLI",
            mnemonic: "srli rd, rs1, imm",
            encoding: "I-Type:   0000000iiiii_aaaaa_101_ddddd_0010011",
            desc: "Logical right shift (zeroes are shifted into the upper bits).",
        },
        InstructionInfo {
            name: "SRAI",
            mnemonic: "srai rd, rs1, imm",
            encoding: "I-Type:   0100000iiiii_aaaaa_101_ddddd_0010011",
            desc: "Arithmatic right shift (the original sign bit is copied into the vacant upper bits).",
        },
        InstructionInfo {
            name: "LUI",
            mnemonic: "lui rd, imm",
            encoding: "U-Type:     iiiiiiiiiiiiiiiiiiii_ddddd_0110111",
            desc: "Load Upper Immediate. Used to build 32-bit constants and use the U-type format. LUI places the U-immediate value in the top 20 bits of the descination register rd, filling in the lowest 12 bits with zeros.",
        },
        InstructionInfo {
            name: "AUIPC",
            mnemonic: "auipc rd, imm",
            encoding: "U-Type:     iiiiiiiiiiiiiiiiiiii_ddddd_0010111",
            desc: "Add Upper Immediate ot PC. Used to build pc-relative addresses and uses the U-type format. AUIPC froms a 32-bit offset from the 10-bit U-immediate, filling the lowest 12 bits with zeroes, add this offset to the address of the AUIPC instruction, then places the result in register rd.",
        },
        InstructionInfo {
            name: "ADD",
            mnemonic: "add rd, rs1, rs2",
            encoding: "R-Type:  0000000_bbbbb_aaaaa_000_ddddd_0110011",
            desc: "Add performs the addition of rs1 and rs2. Overflows are ignored and the low XLEN bits of results are written to the desination rd.",
        },
        InstructionInfo {
            name: "SUB",
            mnemonic: "sub rd, rs1, rs2",
            encoding: "R-Type:  0100000_bbbbb_aaaaa_000_ddddd_0110011",
            desc: "Add performs the subtraction of rs1 and rs2. Overflows are ignored and the low XLEN bits of results are written to the desination rd.",
        },
        InstructionInfo {
            name: "SLL",
            mnemonic: "sll rd, rs1, rs2",
            encoding: "R-Type:  0000000_bbbbb_aaaaa_001_ddddd_0110011",
            desc: "SLL performs logical left shift on the value in register `rs1` by teh shift amount held in the lower 5 bits of register `rs2`.",
        },
        InstructionInfo {
            name: "SLT",
            mnemonic: "slt rd, rs1, rs2",
            encoding: "R-Type:  0000000_bbbbb_aaaaa_010_ddddd_0110011",
            desc: "SLT preforms signed compares respectively, writing `1` or `rd` if `rs1 < rs2`, `0` otherwise.",
        },
        InstructionInfo {
            name: "SLTU",
            mnemonic: "sltu rd, rs1, rs2",
            encoding: "R-Type:  0000000_bbbbb_aaaaa_011_ddddd_0110011",
            desc: "SLTU preforms unsigned compares respectively, writing `1` or `rd` if `rs1 < rs2`, `0` otherwise. Note: `SLTU rd, x0, rs2` sets `rd` to `1` if `rs2` is not euqla to zero, otherwise sets `rd` to zero (assembler pseudo-instruction `SNEZ rd, rs`).",
        },
        InstructionInfo {
            name: "XOR",
            mnemonic: "xor rd, rs1, rs2",
            encoding: "R-Type:  0000000_bbbbb_aaaaa_100_ddddd_0110011",
            desc: "XOR performs a bitwise logical xor operation",
        },
        InstructionInfo {
            name: "SRL",
            mnemonic: "srl rd, rs1, rs2",
            encoding: "R-Type:  0000000_bbbbb_aaaaa_101_ddddd_0110011",
            desc: "SRL performs logical right shift on the value in register `rs1` by the shift amount held in the lower 5 bits of register `rs2`.",
        },
        InstructionInfo {
            name: "SRA",
            mnemonic: "sra rd, rs1, rs2",
            encoding: "R-Type:  0100000_bbbbb_aaaaa_101_ddddd_0110011",
            desc: "SRA performs arithmetic right shift on the value in register `rs1` by the shift amount held in the lower 5 bits of register `rs2`.",
        },
        InstructionInfo {
            name: "OR",
            mnemonic: "or rd, rs1, rs2",
            encoding: "R-Type:  0000000_bbbbb_aaaaa_110_ddddd_0110011",
            desc: "OR performs a bitwise logical or operation",
        },
        InstructionInfo {
            name: "AND",
            mnemonic: "and rd, rs1, rs2",
            encoding: "R-Type:  0000000_bbbbb_aaaaa_111_ddddd_0110011",
            desc: "AND performs a bitwise logical and operation",
        },
        InstructionInfo {
            name: "JAL",
            mnemonic: "jal rd, imm",
            encoding: "J-Type:  i_iiiiiiiiii_i_iiiiiiii_ddddd_1101111",
            desc: "The jump and link JAL) instruciton uses the J-type format, where the J-immediate encodes a signed offset in multiples of 2 bytes. The offset is sign extended and added to the address of the jump instruction to form the jump target address. Jumps can therefore target a +-1MiB range. JAL stores the address of the instructi on following the jump (pc+4) into register `rd`. The standard software calling convention uses `x1` as the resturn addresss register and `x5` as teh laternate link register. Plain unconditional jmps (assembler pseudo-instrctuion J) are encoded as a JAL with `rd = x0`.",
        },
        InstructionInfo {
            name: "JALR",
            mnemonic: "jalr rd, rs1, imm",
            encoding: "I-type:   iiiiiiiiiiii_aaaaa_000_ddddd_1100111",
            desc: "The indrect jump instruction JALR (Jump And Link Register) uses the I-type encoding. The target address is obtained by adding the sign-extended 12-bit immeidate value to the register `rs1`, then setting the least significant bit of hte result to zero. The address of the instruction following the jump (pc + 4) is written to register `rd`. Reisger `x0` can be used as the destination if the result is not required.",
        },
        InstructionInfo {
            name: "BEQ",
            mnemonic: "beq rs1, rs2, imm",
            encoding: "B-Type: i_iiiiii_bbbbb_aaaaa_000_iiii_i_1100011",
            desc: "Compare two registers and take a branch if registers `rs1` and `rs2` are equal.",
        },
        InstructionInfo {
            name: "BNE",
            mnemonic: "bne rs1, rs2, imm",
            encoding: "B-Type: i_iiiiii_bbbbb_aaaaa_001_iiii_i_1100011",
            desc: "Compare two registers and take a branch if registers `rs1` and `rs2` are unequal.",
        },
        InstructionInfo {
            name: "BLT",
            mnemonic: "blt rs1, rs2, imm",
            encoding: "B-Type: i_iiiiii_bbbbb_aaaaa_100_iiii_i_1100011",
            desc: "Compare two registers and take a branch if `rs1` is less than `rs2`, using signed comparison. Note: BGT can be synthesized by reversing the operand to BLT.",
        },
        InstructionInfo {
            name: "BLTU",
            mnemonic: "bltu rs1, rs2, imm",
            encoding: "B-Type: i_iiiiii_bbbbb_aaaaa_110_iiii_i_1100011",
            desc: "Compare two registers and take a branch if `rs1` is less than `rs2`, using unsigned comparison. Note: BGTU can be synthesized by reversing the operand to BLTU.",
        },
        InstructionInfo {
            name: "BGE",
            mnemonic: "bge rs1, rs2, imm",
            encoding: "B-Type: i_iiiiii_bbbbb_aaaaa_101_iiii_i_1100011",
            desc: "Compare two registers and take a branch if `rs1` is greater than or equal to `rs2`, using signed comparison. Note: BLE can be synthesized by reversing the operand to BGE.",
        },
        InstructionInfo {
            name: "BGEU",
            mnemonic: "bgeu rs1, rs2, imm",
            encoding: "B-Type: i_iiiiii_bbbbb_aaaaa_111_iiii_i_1100011",
            desc: "Compare two registers and take a branch if `rs1` is greater than or equal to `rs2`, using unsigned comparison. Note: BLEU can be synthesized by reversing the operand to BGEU.",
        },
        InstructionInfo {
            name: "LB",
            mnemonic: "lb rd, rs1, imm",
            encoding: "I-Type:   iiiiiiiiiiii_aaaaa_000_ddddd_0000011",
            desc: "Loads an 8-bit value from memory, then sign-extends to 32-bit before storing into `rd`. The effective address is obtained by adding register `rs1` to the sign-extended 12-bit offset.",
        },
        InstructionInfo {
            name: "LH",
            mnemonic: "lh rd, rs1, imm",
            encoding: "I-Type:   iiiiiiiiiiii_aaaaa_001_ddddd_0000011",
            desc: "Loads a 16-bit value from memory, then sign-extends to 32-bit before storing into `rd`. The effective address is obtained by adding register `rs1` to the sign-extended 12-bit offset.",
        },
        InstructionInfo {
            name: "LW",
            mnemonic: "lw rd, rs1, imm",
            encoding: "I-Type:   iiiiiiiiiiii_aaaaa_010_ddddd_0000011",
            desc: "Loads a 32-bit value from memory into `rd`. The effective address is obtained by adding register `rs1` to the sign-extended 12-bit offset.",
        },
        InstructionInfo {
            name: "LBU",
            mnemonic: "lbu rd, rs1, imm",
            encoding: "I-Type:   iiiiiiiiiiii_aaaaa_100_ddddd_0000011",
            desc: "Loads an 8-bit value from memory, then zero-extends to 32-bits before storing into `rd`. The effective address is obtained by adding register `rs1` to the sign-extended 12-bit offset.",
        },
        InstructionInfo {
            name: "LHU",
            mnemonic: "lhu rd, rs1, imm",
            encoding: "I-Type:   iiiiiiiiiiii_aaaaa_101_ddddd_0000011",
            desc: "Loads a 16-bit value from memory, then zero-extends to 32-bits before storing into `rd`. The effective address is obtained by adding register `rs1` to the sign-extended 12-bit offset.",
        },
        InstructionInfo {
            name: "SB",
            mnemonic: "sb rs1, rs2, imm",
            encoding: "S-Type:   iiiiii_bbbbb_aaaaa_000_iiiii_0100011",
            desc: "Store an 8-bit value from the lower bits of register `rs2` to memory. The effective address is obtained by adding register `rs1` to the sign-extended 12-bit offset.",
        },
        InstructionInfo {
            name: "SH",
            mnemonic: "sh rs1, rs2, imm",
            encoding: "S-Type:   iiiiii_bbbbb_aaaaa_001_iiiii_0100011",
            desc: "Store a 16-bit value from the lower bits of register `rs2` to memory. The effective address is obtained by adding register `rs1` to the sign-extended 12-bit offset.",
        },
        InstructionInfo {
            name: "SW",
            mnemonic: "sw rs1, rs2, imm",
            encoding: "S-Type:   iiiiii_bbbbb_aaaaa_010_iiiii_0100011",
            desc: "Store a 32-bit value from register `rs2` to memory. The effective address is obtained by adding register `rs1` to the sign-extended 12-bit offset.",
        },
        InstructionInfo {
            name: "FENCE",
            mnemonic: "fence succ, pred",
            encoding: "I-Type:   ff_pppp_ssss_aaaaa_000_ddddd_0001111",
            desc: "Used to order I/O and memory accesses as view by other RISC-V harts an external devices or coprocessors. Any combination of input (I), device output (O), memory reads (R), memory writes (W) may be ordered with respect to any combination or the same. For more info: see chapter 2.7 of the RIS-V Unpriviledged ISA.",
        },
        InstructionInfo {
            name: "ECALL",
            mnemonic: "ecall",
            encoding: "I-Type:   000000000000_00000_000_00000_1110011",
            desc: "Used to make a service requrest to the execution environment. The EEI will define how paramters for the service request are passed, but usually these will be in defined locations in the integer register file",
        },
        InstructionInfo {
            name: "EBREAK",
            mnemonic: "ebreak",
            encoding: "I-Type:   000000000001_00000_000_00000_1110011",
            desc: "Used to return control to a debuffing environment",
        },
    ]
}

pub fn zifencei_instruction_info() -> (r: Vec<InstructionInfo>)
    ensures
        r@.len() == ZIFENCEI_INSTRUCTION_COUNT,
{
    vec![
        InstructionInfo {
            name: "FENCE.I",
            mnemonic: "fence.i",
            encoding: "I-Type: 000000000000_00000_001_00000_0001111",
            desc: "Used to synchronized the instruction and data streams. RISC-V does not guarantee that stores to instruciton memory will be made visible to instruction fetches on a RISC-V hart until thta hard executes a FENCE.I instcruction.",
        },
    ]
}

pub fn base_isa_info() -> (r: Vec<BaseIsaInfo>)
    ensures
        r@.len() == BASE_ISA_COUNT,
{
    vec![
        BaseIsaInfo {
            name: "RVWMO",
            desc: "Weak Memory Ordering",
            version: "2.0",
            status: IsaStatus::Ratified,
            size: IsaSize::Size32,
            instructions: None,
        },
        BaseIsaInfo {
            name: "RV32I",
            desc: "Base Integer Instruction Set",
            version: "2.1",
            status: IsaStatus::Ratified,
            size: IsaSize::Size32,
            instructions: Some(rv32i_instruction_info()),
        },
        BaseIsaInfo {
            name: "RV32E",
            desc: "Base Integer Instruction Set (embedded)",
            version: "2.0",
            status: IsaStatus::Ratified,
            size: IsaSize::Size32,
            instructions: None,
        },
        BaseIsaInfo {
            name: "RV64I",
            desc: "Base Integer Instruction Set",
            version: "2.1",
            status: IsaStatus::Ratified,
            size: IsaSize::Size64,
            instructions: None,
        },
        BaseIsaInfo {
            name: "RV64E",
            desc: "Base Integer Instruction Set (embedded)",
            version: "2.0",
            status: IsaStatus::Ratified,
            size: IsaSize::Size64,
            instructions: None,
        },
        BaseIsaInfo {
            name: "RV128I",
            desc: "Base Integer Instruction Set",
            version: "1.6",
            status: IsaStatus::Draft,
            size: IsaSize::Size128,
            instructions: None,
        },
    ]
}

pub fn ext_isa_info() -> (r: Vec<ExtensionIsaInfo>)
    ensures
        r@.len() == EXTENSION_COUNT,
{
    vec![
        ExtensionIsaInfo {
            name: "M",
            desc: "Standard extension for integer multiplication and division",
            version: "2.0",
            status: IsaStatus::Ratified,
            instructions: [None, None, None, None, None],
        },
        ExtensionIsaInfo {
            name: "A",
            desc: "Standard extension for atomic instructions",
            version: "2.1",
            status: IsaStatus::Ratified,
            instructions: [None, None, None, None, None],
        },
        ExtensionIsaInfo {
            name: "F",
            desc: "Standard extension for single-precision floating-point",
            version: "2.2",
            status: IsaStatus::Ratified,
            instructions: [None, None, None, None, None],
        },
        ExtensionIsaInfo {
            name: "D",
            desc: "Standard extension for double-precision floating-point",
            version: "2.2",
            status: IsaStatus::Ratified,
            instructions: [None, None, None, None, None],
        },
        ExtensionIsaInfo {
            name: "Zicsr",
            desc: "Control and Status Register (CSR) instructions",
            version: "2.0",
            status: IsaStatus::Ratified,
            instructions: [None, None, None, None, None],
        },
        ExtensionIsaInfo {
            name: "Zifencei",
            desc: "Instuction-fetch fence",
            version: "2.0",
            status: IsaStatus::Ratified,
            instructions: [None, None, Some(zifencei_instruction_info()), Some(zifencei_instruction_info()), None],
        },
        ExtensionIsaInfo {
            name: "G",
            desc: "Shorthand for the IMAFD_Zicrt_Zifencei base and extensions",
            version: "n/a",
            status: IsaStatus::Ratified,
            instructions: [None, None, None, None, None],
        },
        ExtensionIsaInfo {
            name: "Q",
            desc: "Standard extension for quad-precision floating-point",
            version: "2.2",
            status: IsaStatus::Ratified,
            instructions: [None, None, None, None, None],
        },
        ExtensionIsaInfo {
            name: "L",
            desc: "Standard extension for decimal floating-point",
            version: "0.0",
            status: IsaStatus::Draft,
            instructions: [None, None, None, None, None],
        },
        ExtensionIsaInfo {
            name: "C",
            desc: "Standard extension for compressed instructions",
            version: "2.0",
            status: IsaStatus::Ratified,
            instructions: [None, None, None, None, None],
        },
        ExtensionIsaInfo {
            name: "B",
            desc: "Standard extension for bit manipulation",
            version: "1.0",
            status: IsaStatus::Ratified,
            instructions: [None, None, None, None, None],
        },
        ExtensionIsaInfo {
            name: "J",
            desc: "Standard extension for dynamically translated languages",
            version: "0.0",
            status: IsaStatus::Draft,
            instructions: [None, None, None, None, None],
        },
        ExtensionIsaInfo {
            name: "T",
            desc: "Standard extension for transactional memory",
            version: "0.0",
            status: IsaStatus::Draft,
            instructions: [None, None, None, None, None],
        },
        ExtensionIsaInfo {
            name: "P",
            desc: "Standard extension for packed SIMD instructions",
            version: "0.9.10",
            status: IsaStatus::Draft,
            instructions: [None, None, None, None, None],
        },
        ExtensionIsaInfo {
            name: "V",
            desc: "Standard extension for vector instructions",
            version: "1.0",
            status: IsaStatus::Ratified,
            instructions: [None, None, None, None, None],
        },
        ExtensionIsaInfo {
            name: "Zk",
            desc: "Standard extension for scalar cryptography",
            version: "1.0.1",
            status: IsaStatus::Ratified,
            instructions: [None, None, None, None, None],
        },
        ExtensionIsaInfo {
            name: "H",
            desc: "Standard extension for hypervisor",
            version: "1.0",
            status: IsaStatus::Ratified,
            instructions: [None, None, None, None, None],
        },
        ExtensionIsaInfo {
            name: "S",
            desc: "Standard extension for supervisor-level instructions",
            version: "1.12",
            status: IsaStatus::Ratified,
            instructions: [None, None, None, None, None],
        },
        ExtensionIsaInfo {
            name: "Zam",
            desc: "Misaligned atomics",
            version: "0.1",
            status: IsaStatus::Draft,
            instructions: [None, None, None, None, None],
        },
        ExtensionIsaInfo {
            name: "Zihintpause",
            desc: "Pause hint",
            version: "2.0",
            status: IsaStatus::Ratified,
            instructions: [None, None, None, None, None],
        },
        ExtensionIsaInfo {
            name: "Zihintntl",
            desc: "Non-temporal locality hints",
            version: "0.2",
            status: IsaStatus::Draft,
            instructions: [None, None, None, None, None],
        },
        ExtensionIsaInfo {
            name: "Zfa",
            desc: "Aditional floating-point instruction",
            version: "0.1",
            status: IsaStatus::Draft,
            instructions: [None, None, None, None, None],
        },
        ExtensionIsaInfo {
            name: "Zfh",
            desc: "Half-precision floating-point",
            version: "1.0",
            status: IsaStatus::Ratified,
            instructions: [None, None, None, None, None],
        },
        ExtensionIsaInfo {
            name: "Zfhmin",
            desc: "Minimal half-precision floating-point",
            version: "1.0",
            status: IsaStatus::Ratified,
            instructions: [None, None, None, None, None],
        },
        ExtensionIsaInfo {
            name: "Zfinx",
            desc: "Single-precision floating-point in integer registers",
            version: "1.0",
            status: IsaStatus::Ratified,
            instructions: [None, None, None, None, None],
        },
        ExtensionIsaInfo {
            name: "Zdinx",
            desc: "Double-precision floating-point in integer registers",
            version: "1.0",
            status: IsaStatus::Ratified,
            instructions: [None, None, None, None, None],
        },
        ExtensionIsaInfo {
            name: "Zhinx",
            desc: "Half-precision floating-point in integer registers",
            version: "1.0",
            status: IsaStatus::Ratified,
            instructions: [None, None, None, None, None],
        },
        ExtensionIsaInfo {
            name: "Zhinxmin",
            desc: "Minimum half-precision floating-point in integer registers",
            version: "1.0",
            status: IsaStatus::Ratified,
            instructions: [None, None, None, None, None],
        },
        ExtensionIsaInfo {
            name: "Zmmul",
            desc: "Multiplication subset of the M extension",
            version: "1.0",
            status: IsaStatus::Ratified,
            instructions: [None, None, None, None, None],
        },
        ExtensionIsaInfo {
            name: "Zlso",
            desc: "Total store ordering",
            version: "1.0",
            status: IsaStatus::Ratified,
            instructions: [None, None, None, None, None],
        },
    ]
}

} // verus!
