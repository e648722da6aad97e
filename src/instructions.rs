//! Decoded instructions: the base integer group and the instruction-fetch
//! fence group.
use vstd::prelude::*;

use crate::bits::{sign_extend, sign_extend_64};
use crate::encoding::{encode_spec, InstructionEncoding32};
use crate::fault::Fault;
use crate::registers::{RegisterFile, RegisterFileView};
use crate::text::{
    asm2, asm3, bin_text, binary, dec_text, decimal, fmt2, fmt3, hex_text, hex_upper, reg, reg_text,
};

verus! {

/// The base integer instructions. Immediates hold the raw bits of their
/// hardware field and are sign-extended only when executed.
#[allow(inconsistent_fields)]
#[derive(Clone, Copy, PartialEq, Eq, Debug, Structural)]
pub enum RV32IInstuction {
    ADDI { rd: u8, rs1: u8, imm: u16 },
    SLTI { rd: u8, rs1: u8, imm: u16 },
    SLTIU { rd: u8, rs1: u8, imm: u16 },
    XORI { rd: u8, rs1: u8, imm: u16 },
    ORI { rd: u8, rs1: u8, imm: u16 },
    ANDI { rd: u8, rs1: u8, imm: u16 },
    SLLI { rd: u8, rs1: u8, imm: u8 },
    SRLI { rd: u8, rs1: u8, imm: u8 },
    SRAI { rd: u8, rs1: u8, imm: u8 },
    /// `imm` is the loaded 32-bit value; its low 12 bits are zero.
    LUI { rd: u8, imm: u32 },
    /// `imm` is the added 32-bit offset; its low 12 bits are zero.
    AUIPC { rd: u8, imm: u32 },
    ADD { rd: u8, rs1: u8, rs2: u8 },
    SUB { rd: u8, rs1: u8, rs2: u8 },
    SLL { rd: u8, rs1: u8, rs2: u8 },
    SLT { rd: u8, rs1: u8, rs2: u8 },
    SLTU { rd: u8, rs1: u8, rs2: u8 },
    XOR { rd: u8, rs1: u8, rs2: u8 },
    SRL { rd: u8, rs1: u8, rs2: u8 },
    SRA { rd: u8, rs1: u8, rs2: u8 },
    OR { rd: u8, rs1: u8, rs2: u8 },
    AND { rd: u8, rs1: u8, rs2: u8 },
    /// `imm` is the 21-bit jump offset; bit 0 is always clear.
    JAL { rd: u8, imm: u32 },
    JALR { rd: u8, rs1: u8, imm: u16 },
    /// Branch `imm` is the 13-bit offset; bit 0 is always clear.
    BEQ { rs1: u8, rs2: u8, imm: u16 },
    BNE { rs1: u8, rs2: u8, imm: u16 },
    BLT { rs1: u8, rs2: u8, imm: u16 },
    BLTU { rs1: u8, rs2: u8, imm: u16 },
    BGE { rs1: u8, rs2: u8, imm: u16 },
    BGEU { rs1: u8, rs2: u8, imm: u16 },
    LB { rd: u8, rs1: u8, imm: u16 },
    LH { rd: u8, rs1: u8, imm: u16 },
    LW { rd: u8, rs1: u8, imm: u16 },
    LBU { rd: u8, rs1: u8, imm: u16 },
    LHU { rd: u8, rs1: u8, imm: u16 },
    SB { rs1: u8, rs2: u8, imm: u16 },
    SH { rs1: u8, rs2: u8, imm: u16 },
    SW { rs1: u8, rs2: u8, imm: u16 },
    FENCE { rd: u8, rs1: u8, succ: u8, pred: u8, fm: u8 },
    ECALL,
    EBREAK,
}

/// The instruction-fetch fence group.
#[derive(Clone, Copy, PartialEq, Eq, Debug, Structural)]
pub enum ZifenceiInstructions {
    FenceI,
}

/// A decoded instruction of any supported group.
#[derive(Clone, Copy, PartialEq, Eq, Debug, Structural)]
pub enum Instruction {
    RV32I(RV32IInstuction),
    Zifencei(ZifenceiInstructions),
}

/// A register index fits the 5-bit register field.
pub open spec fn reg_ok(r: u8) -> bool {
    r < 32
}

impl RV32IInstuction {
    /// Every field fits the width of its hardware field, and the 2-byte
    /// granular offsets are even.
    pub open spec fn wf(&self) -> bool {
        match *self {
            RV32IInstuction::ADDI { rd, rs1, imm }
            | RV32IInstuction::SLTI { rd, rs1, imm }
            | RV32IInstuction::SLTIU { rd, rs1, imm }
            | RV32IInstuction::XORI { rd, rs1, imm }
            | RV32IInstuction::ORI { rd, rs1, imm }
            | RV32IInstuction::ANDI { rd, rs1, imm }
            | RV32IInstuction::JALR { rd, rs1, imm }
            | RV32IInstuction::LB { rd, rs1, imm }
            | RV32IInstuction::LH { rd, rs1, imm }
            | RV32IInstuction::LW { rd, rs1, imm }
            | RV32IInstuction::LBU { rd, rs1, imm }
            | RV32IInstuction::LHU { rd, rs1, imm } => reg_ok(rd) && reg_ok(rs1) && imm < 0x1000,
            RV32IInstuction::SLLI { rd, rs1, imm }
            | RV32IInstuction::SRLI { rd, rs1, imm }
            | RV32IInstuction::SRAI { rd, rs1, imm } => reg_ok(rd) && reg_ok(rs1) && imm < 32,
            RV32IInstuction::LUI { rd, imm } | RV32IInstuction::AUIPC { rd, imm } => reg_ok(rd)
                && imm & 0xFFF == 0,
            RV32IInstuction::ADD { rd, rs1, rs2 }
            | RV32IInstuction::SUB { rd, rs1, rs2 }
            | RV32IInstuction::SLL { rd, rs1, rs2 }
            | RV32IInstuction::SLT { rd, rs1, rs2 }
            | RV32IInstuction::SLTU { rd, rs1, rs2 }
            | RV32IInstuction::XOR { rd, rs1, rs2 }
            | RV32IInstuction::SRL { rd, rs1, rs2 }
            | RV32IInstuction::SRA { rd, rs1, rs2 }
            | RV32IInstuction::OR { rd, rs1, rs2 }
            | RV32IInstuction::AND { rd, rs1, rs2 } => reg_ok(rd) && reg_ok(rs1) && reg_ok(rs2),
            RV32IInstuction::JAL { rd, imm } => reg_ok(rd) && imm < 0x20_0000 && imm % 2 == 0,
            RV32IInstuction::BEQ { rs1, rs2, imm }
            | RV32IInstuction::BNE { rs1, rs2, imm }
            | RV32IInstuction::BLT { rs1, rs2, imm }
            | RV32IInstuction::BLTU { rs1, rs2, imm }
            | RV32IInstuction::BGE { rs1, rs2, imm }
            | RV32IInstuction::BGEU { rs1, rs2, imm } => reg_ok(rs1) && reg_ok(rs2) && imm < 0x2000
                && imm % 2 == 0,
            RV32IInstuction::SB { rs1, rs2, imm }
            | RV32IInstuction::SH { rs1, rs2, imm }
            | RV32IInstuction::SW { rs1, rs2, imm } => reg_ok(rs1) && reg_ok(rs2) && imm < 0x1000,
            RV32IInstuction::FENCE { rd, rs1, succ, pred, fm } => reg_ok(rd) && reg_ok(rs1) && succ
                < 16 && pred < 16 && fm < 16,
            RV32IInstuction::ECALL | RV32IInstuction::EBREAK => true,
        }
    }
}

impl Instruction {
    /// Every field fits its hardware field.
    pub open spec fn wf(&self) -> bool {
        match *self {
            Instruction::RV32I(i) => i.wf(),
            Instruction::Zifencei(_) => true,
        }
    }
}

/// Size in bytes of every instruction of this encoding.
pub const INSTRUCTION_SIZE: u64 = 4;

/// A 12-bit immediate, sign-extended.
pub open spec fn imm12(imm: u16) -> u64 {
    sign_extend(imm as u64, 11)
}

/// A 13-bit branch offset, sign-extended.
pub open spec fn imm13(imm: u16) -> u64 {
    sign_extend(imm as u64, 12)
}

/// A 21-bit jump offset, sign-extended.
pub open spec fn imm21(imm: u32) -> u64 {
    sign_extend(imm as u64, 20)
}

/// A 32-bit upper immediate, sign-extended from bit 31.
pub open spec fn upper(imm: u32) -> u64 {
    sign_extend(imm as u64, 31)
}

/// The bits of a shift amount register that the current width uses.
pub open spec fn shift_mask(rf: RegisterFileView) -> u64 {
    if rf.is_32_bit {
        0x1F
    } else {
        0x3F
    }
}

/// `a < b` with both read as two's-complement signed values.
pub open spec fn lt_signed(a: u64, b: u64) -> bool {
    (a as i64) < (b as i64)
}

/// 1 when `c` holds, else 0.
pub open spec fn flag(c: bool) -> u64 {
    if c {
        1
    } else {
        0
    }
}

/// Base register plus sign-extended offset, wrapping.
pub open spec fn effective_addr(rf: RegisterFileView, rs1: u8, imm: u16) -> u64 {
    rf.x[rs1 as int].wrapping_add(imm12(imm))
}

/// Bytes `addr .. addr + n` lie inside memory.
pub open spec fn in_bounds(mem: Seq<u8>, addr: u64, n: int) -> bool {
    addr + n <= mem.len()
}

/// Two bytes read as a little-endian value.
pub open spec fn le16(mem: Seq<u8>, a: int) -> u64 {
    (mem[a] as u64) | ((mem[a + 1] as u64) << 8u64)
}

/// Four bytes read as a little-endian value.
pub open spec fn le32(mem: Seq<u8>, a: int) -> u64 {
    (mem[a] as u64) | ((mem[a + 1] as u64) << 8u64) | ((mem[a + 2] as u64) << 16u64) | ((mem[a
        + 3] as u64) << 24u64)
}

/// Memory after writing the low two bytes of `v` at `a`, little-endian.
pub open spec fn store16(mem: Seq<u8>, a: int, v: u64) -> Seq<u8> {
    mem.update(a, v as u8).update(a + 1, (v >> 8u64) as u8)
}

/// Memory after writing the low four bytes of `v` at `a`, little-endian.
pub open spec fn store32(mem: Seq<u8>, a: int, v: u64) -> Seq<u8> {
    store16(store16(mem, a, v), a + 2, v >> 16u64)
}

/// The state after a register-writing instruction: `v` goes to `rd` (unless
/// it is register 0) and the program counter moves to the next instruction.
pub open spec fn write_next(rf: RegisterFileView, rd: u8, v: u64) -> RegisterFileView {
    rf.write_x(rd as int, v).advance_pc(INSTRUCTION_SIZE)
}

/// A branch: the program counter moves by `offset` when `taken`, else to
/// the next instruction.
pub open spec fn branch(rf: RegisterFileView, taken: bool, imm: u16) -> RegisterFileView {
    if taken {
        rf.advance_pc(imm13(imm))
    } else {
        rf.advance_pc(INSTRUCTION_SIZE)
    }
}

/// A load of `n` bytes whose raw little-endian value is turned into the
/// register value by `ext`; `None` when the bytes lie outside memory.
pub open spec fn load(
    rf: RegisterFileView,
    mem: Seq<u8>,
    rd: u8,
    addr: u64,
    n: int,
    v: u64,
) -> Option<(RegisterFileView, Seq<u8>)> {
    if in_bounds(mem, addr, n) {
        Some((write_next(rf, rd, v), mem))
    } else {
        None
    }
}

/// A store of the new memory `m2` to bytes `addr .. addr + n`; `None` when
/// they lie outside memory.
pub open spec fn store(
    rf: RegisterFileView,
    mem: Seq<u8>,
    addr: u64,
    n: int,
    m2: Seq<u8>,
) -> Option<(RegisterFileView, Seq<u8>)> {
    if in_bounds(mem, addr, n) {
        Some((rf.advance_pc(INSTRUCTION_SIZE), m2))
    } else {
        None
    }
}

impl RV32IInstuction {
    /// The register file and memory after executing this instruction, or
    /// `None` when it accesses memory out of bounds.
    pub open spec fn exec_spec(self, rf: RegisterFileView, mem: Seq<u8>) -> Option<
        (RegisterFileView, Seq<u8>),
    > {
        let xs = rf.x;
        match self {
            RV32IInstuction::ADDI { rd, rs1, imm } => Some(
                (write_next(rf, rd, rf.read_sext(rs1 as int).wrapping_add(imm12(imm))), mem),
            ),
            RV32IInstuction::SLTI { rd, rs1, imm } => Some(
                (write_next(rf, rd, flag(lt_signed(rf.read_sext(rs1 as int), imm12(imm)))), mem),
            ),
            RV32IInstuction::SLTIU { rd, rs1, imm } => Some(
                (write_next(rf, rd, flag(rf.read_sext(rs1 as int) < imm12(imm))), mem),
            ),
            RV32IInstuction::XORI { rd, rs1, imm } => Some(
                (write_next(rf, rd, xs[rs1 as int] ^ imm12(imm)), mem),
            ),
            RV32IInstuction::ORI { rd, rs1, imm } => Some(
                (write_next(rf, rd, xs[rs1 as int] | imm12(imm)), mem),
            ),
            RV32IInstuction::ANDI { rd, rs1, imm } => Some(
                (write_next(rf, rd, xs[rs1 as int] & imm12(imm)), mem),
            ),
            RV32IInstuction::SLLI { rd, rs1, imm } => Some(
                (write_next(rf, rd, xs[rs1 as int] << (imm as u64)), mem),
            ),
            RV32IInstuction::SRLI { rd, rs1, imm } => Some(
                (write_next(rf, rd, xs[rs1 as int] >> (imm as u64)), mem),
            ),
            RV32IInstuction::SRAI { rd, rs1, imm } => Some(
                (write_next(rf, rd, ((rf.read_sext(rs1 as int) as i64) >> (imm as i64)) as u64), mem),
            ),
            RV32IInstuction::LUI { rd, imm } => Some((write_next(rf, rd, upper(imm)), mem)),
            RV32IInstuction::AUIPC { rd, imm } => Some(
                (write_next(rf, rd, rf.pc.wrapping_add(upper(imm))), mem),
            ),
            RV32IInstuction::ADD { rd, rs1, rs2 } => Some(
                (
                    write_next(
                        rf,
                        rd,
                        rf.read_sext(rs1 as int).wrapping_add(rf.read_sext(rs2 as int)),
                    ),
                    mem,
                ),
            ),
            RV32IInstuction::SUB { rd, rs1, rs2 } => Some(
                (
                    write_next(
                        rf,
                        rd,
                        rf.read_sext(rs1 as int).wrapping_sub(rf.read_sext(rs2 as int)),
                    ),
                    mem,
                ),
            ),
            RV32IInstuction::SLL { rd, rs1, rs2 } => Some(
                (write_next(rf, rd, xs[rs1 as int] << (xs[rs2 as int] & shift_mask(rf))), mem),
            ),
            RV32IInstuction::SLT { rd, rs1, rs2 } => Some(
                (
                    write_next(
                        rf,
                        rd,
                        flag(lt_signed(rf.read_sext(rs1 as int), rf.read_sext(rs2 as int))),
                    ),
                    mem,
                ),
            ),
            RV32IInstuction::SLTU { rd, rs1, rs2 } => Some(
                (
                    write_next(rf, rd, flag(rf.read_sext(rs1 as int) < rf.read_sext(rs2 as int))),
                    mem,
                ),
            ),
            RV32IInstuction::XOR { rd, rs1, rs2 } => Some(
                (write_next(rf, rd, xs[rs1 as int] ^ xs[rs2 as int]), mem),
            ),
            RV32IInstuction::SRL { rd, rs1, rs2 } => Some(
                (write_next(rf, rd, xs[rs1 as int] >> (xs[rs2 as int] & shift_mask(rf))), mem),
            ),
            RV32IInstuction::SRA { rd, rs1, rs2 } => Some(
                (
                    write_next(
                        rf,
                        rd,
                        ((rf.read_sext(rs1 as int) as i64) >> ((xs[rs2 as int] & shift_mask(
                            rf,
                        )) as i64)) as u64,
                    ),
                    mem,
                ),
            ),
            RV32IInstuction::OR { rd, rs1, rs2 } => Some(
                (write_next(rf, rd, xs[rs1 as int] | xs[rs2 as int]), mem),
            ),
            RV32IInstuction::AND { rd, rs1, rs2 } => Some(
                (write_next(rf, rd, xs[rs1 as int] & xs[rs2 as int]), mem),
            ),
            RV32IInstuction::JAL { rd, imm } => Some(
                (
                    rf.write_x(rd as int, rf.pc.wrapping_add(INSTRUCTION_SIZE)).advance_pc(
                        imm21(imm),
                    ),
                    mem,
                ),
            ),
            RV32IInstuction::JALR { rd, rs1, imm } => Some(
                (
                    rf.write_x(rd as int, rf.pc.wrapping_add(INSTRUCTION_SIZE)).write_pc(
                        effective_addr(rf, rs1, imm) & !1u64,
                    ),
                    mem,
                ),
            ),
            RV32IInstuction::BEQ { rs1, rs2, imm } => Some(
                (branch(rf, xs[rs1 as int] == xs[rs2 as int], imm), mem),
            ),
            RV32IInstuction::BNE { rs1, rs2, imm } => Some(
                (branch(rf, xs[rs1 as int] != xs[rs2 as int], imm), mem),
            ),
            RV32IInstuction::BLT { rs1, rs2, imm } => Some(
                (branch(rf, lt_signed(rf.read_sext(rs1 as int), rf.read_sext(rs2 as int)), imm), mem),
            ),
            RV32IInstuction::BLTU { rs1, rs2, imm } => Some(
                (branch(rf, rf.read_sext(rs1 as int) < rf.read_sext(rs2 as int), imm), mem),
            ),
            RV32IInstuction::BGE { rs1, rs2, imm } => Some(
                (branch(rf, !lt_signed(rf.read_sext(rs1 as int), rf.read_sext(rs2 as int)), imm), mem),
            ),
            RV32IInstuction::BGEU { rs1, rs2, imm } => Some(
                (branch(rf, !(rf.read_sext(rs1 as int) < rf.read_sext(rs2 as int)), imm), mem),
            ),
            RV32IInstuction::LB { rd, rs1, imm } => {
                let a = effective_addr(rf, rs1, imm);
                load(rf, mem, rd, a, 1, sign_extend(mem[a as int] as u64, 7))
            },
            RV32IInstuction::LH { rd, rs1, imm } => {
                let a = effective_addr(rf, rs1, imm);
                load(rf, mem, rd, a, 2, sign_extend(le16(mem, a as int), 15))
            },
            RV32IInstuction::LW { rd, rs1, imm } => {
                let a = effective_addr(rf, rs1, imm);
                load(rf, mem, rd, a, 4, sign_extend(le32(mem, a as int), 31))
            },
            RV32IInstuction::LBU { rd, rs1, imm } => {
                let a = effective_addr(rf, rs1, imm);
                load(rf, mem, rd, a, 1, mem[a as int] as u64)
            },
            RV32IInstuction::LHU { rd, rs1, imm } => {
                let a = effective_addr(rf, rs1, imm);
                load(rf, mem, rd, a, 2, le16(mem, a as int))
            },
            RV32IInstuction::SB { rs1, rs2, imm } => {
                let a = effective_addr(rf, rs1, imm);
                store(rf, mem, a, 1, mem.update(a as int, xs[rs2 as int] as u8))
            },
            RV32IInstuction::SH { rs1, rs2, imm } => {
                let a = effective_addr(rf, rs1, imm);
                store(rf, mem, a, 2, store16(mem, a as int, xs[rs2 as int]))
            },
            RV32IInstuction::SW { rs1, rs2, imm } => {
                let a = effective_addr(rf, rs1, imm);
                store(rf, mem, a, 4, store32(mem, a as int, xs[rs2 as int]))
            },
            RV32IInstuction::FENCE { .. } | RV32IInstuction::ECALL | RV32IInstuction::EBREAK => Some(
                (rf.advance_pc(INSTRUCTION_SIZE), mem),
            ),
        }
    }
}

/// Writes `v` to `rd` and moves to the next instruction.
fn write_next_exec(register_file: &mut RegisterFile, rd: u8, v: u64)
    requires
        rd < 32,
    ensures
        final(register_file)@ == write_next(old(register_file)@, rd, v),
{
    register_file.write_x_register(rd, v);
    register_file.inc_pc(INSTRUCTION_SIZE);
}

/// Moves the program counter by the branch offset when `taken`, else to the
/// next instruction.
fn take_branch(register_file: &mut RegisterFile, taken: bool, imm: u16)
    ensures
        final(register_file)@ == branch(old(register_file)@, taken, imm),
{
    if taken {
        let offset = sign_extend_64(imm as u64, 12);
        register_file.offset_pc(offset);
    } else {
        register_file.inc_pc(INSTRUCTION_SIZE);
    }
}

fn effective_address(register_file: &RegisterFile, rs1: u8, imm: u16) -> (r: u64)
    requires
        rs1 < 32,
    ensures
        r == effective_addr(register_file@, rs1, imm),
{
    let base = register_file.read_x_register(rs1);
    base.wrapping_add(sign_extend_64(imm as u64, 11))
}

/// Whether bytes `addr .. addr + n` lie inside `memory`.
fn fits(memory: &[u8], addr: u64, n: u64) -> (r: bool)
    ensures
        r == in_bounds(memory@, addr, n as int),
{
    let len = memory.len() as u64;
    addr <= len && n <= len - addr
}

proof fn lemma_shift_amount(v: u64)
    by (bit_vector)
    ensures
        v & 0x1F < 32,
        v & 0x3F < 64,
{
}

impl RV32IInstuction {
    /// Executes the instruction against the register file and memory.
    /// A load or store outside memory changes nothing and reports
    /// `MemoryOutOfBounds`.
    pub fn exec(&self, register_file: &mut RegisterFile, memory: &mut [u8]) -> (r: Result<(), Fault>)
        requires
            self.wf(),
        ensures
            match self.exec_spec(old(register_file)@, old(memory)@) {
                Some((rf, mem)) => {
                    &&& r == Ok::<(), Fault>(())
                    &&& final(register_file)@ == rf
                    &&& final(memory)@ == mem
                },
                None => {
                    &&& r == Err::<(), Fault>(Fault::MemoryOutOfBounds)
                    &&& final(register_file)@ == old(register_file)@
                    &&& final(memory)@ == old(memory)@
                },
            },
    {
        match *self {
            RV32IInstuction::ADDI { rd, rs1, imm } => {
                let src = register_file.read_x_register_sign_extended(rs1);
                let imm = sign_extend_64(imm as u64, 11);
                write_next_exec(register_file, rd, src.wrapping_add(imm));
            },
            RV32IInstuction::SLTI { rd, rs1, imm } => {
                let src = register_file.read_x_register_sign_extended(rs1) as i64;
                let imm = sign_extend_64(imm as u64, 11) as i64;
                write_next_exec(register_file, rd, if src < imm { 1 } else { 0 });
            },
            RV32IInstuction::SLTIU { rd, rs1, imm } => {
                let src = register_file.read_x_register_sign_extended(rs1);
                let imm = sign_extend_64(imm as u64, 11);
                write_next_exec(register_file, rd, if src < imm { 1 } else { 0 });
            },
            RV32IInstuction::XORI { rd, rs1, imm } => {
                let src = register_file.read_x_register(rs1);
                let imm = sign_extend_64(imm as u64, 11);
                write_next_exec(register_file, rd, src ^ imm);
            },
            RV32IInstuction::ORI { rd, rs1, imm } => {
                let src = register_file.read_x_register(rs1);
                let imm = sign_extend_64(imm as u64, 11);
                write_next_exec(register_file, rd, src | imm);
            },
            RV32IInstuction::ANDI { rd, rs1, imm } => {
                let src = register_file.read_x_register(rs1);
                let imm = sign_extend_64(imm as u64, 11);
                write_next_exec(register_file, rd, src & imm);
            },
            RV32IInstuction::SLLI { rd, rs1, imm } => {
                let src = register_file.read_x_register(rs1);
                write_next_exec(register_file, rd, src << (imm as u64));
            },
            RV32IInstuction::SRLI { rd, rs1, imm } => {
                let src = register_file.read_x_register(rs1);
                write_next_exec(register_file, rd, src >> (imm as u64));
            },
            RV32IInstuction::SRAI { rd, rs1, imm } => {
                let src = register_file.read_x_register_sign_extended(rs1) as i64;
                write_next_exec(register_file, rd, (src >> (imm as i64)) as u64);
            },
            RV32IInstuction::LUI { rd, imm } => {
                let value = sign_extend_64(imm as u64, 31);
                write_next_exec(register_file, rd, value);
            },
            RV32IInstuction::AUIPC { rd, imm } => {
                let pc = register_file.read_pc();
                let value = sign_extend_64(imm as u64, 31);
                write_next_exec(register_file, rd, pc.wrapping_add(value));
            },
            RV32IInstuction::ADD { rd, rs1, rs2 } => {
                let src1 = register_file.read_x_register_sign_extended(rs1);
                let src2 = register_file.read_x_register_sign_extended(rs2);
                write_next_exec(register_file, rd, src1.wrapping_add(src2));
            },
            RV32IInstuction::SUB { rd, rs1, rs2 } => {
                let src1 = register_file.read_x_register_sign_extended(rs1);
                let src2 = register_file.read_x_register_sign_extended(rs2);
                write_next_exec(register_file, rd, src1.wrapping_sub(src2));
            },
            RV32IInstuction::SLL { rd, rs1, rs2 } => {
                let src1 = register_file.read_x_register(rs1);
                let src2 = register_file.read_x_register(rs2);
                let mask: u64 = if register_file.is_32_bit() { 0x1F } else { 0x3F };
                proof {
                    lemma_shift_amount(src2);
                }
                write_next_exec(register_file, rd, src1 << (src2 & mask));
            },
            RV32IInstuction::SLT { rd, rs1, rs2 } => {
                let src1 = register_file.read_x_register_sign_extended(rs1) as i64;
                let src2 = register_file.read_x_register_sign_extended(rs2) as i64;
                write_next_exec(register_file, rd, if src1 < src2 { 1 } else { 0 });
            },
            RV32IInstuction::SLTU { rd, rs1, rs2 } => {
                let src1 = register_file.read_x_register_sign_extended(rs1);
                let src2 = register_file.read_x_register_sign_extended(rs2);
                write_next_exec(register_file, rd, if src1 < src2 { 1 } else { 0 });
            },
            RV32IInstuction::XOR { rd, rs1, rs2 } => {
                let src1 = register_file.read_x_register(rs1);
                let src2 = register_file.read_x_register(rs2);
                write_next_exec(register_file, rd, src1 ^ src2);
            },
            RV32IInstuction::SRL { rd, rs1, rs2 } => {
                let src1 = register_file.read_x_register(rs1);
                let src2 = register_file.read_x_register(rs2);
                let mask: u64 = if register_file.is_32_bit() { 0x1F } else { 0x3F };
                proof {
                    lemma_shift_amount(src2);
                }
                write_next_exec(register_file, rd, src1 >> (src2 & mask));
            },
            RV32IInstuction::SRA { rd, rs1, rs2 } => {
                let src1 = register_file.read_x_register_sign_extended(rs1) as i64;
                let src2 = register_file.read_x_register(rs2);
                let mask: u64 = if register_file.is_32_bit() { 0x1F } else { 0x3F };
                proof {
                    lemma_shift_amount(src2);
                }
                write_next_exec(register_file, rd, (src1 >> ((src2 & mask) as i64)) as u64);
            },
            RV32IInstuction::OR { rd, rs1, rs2 } => {
                let src1 = register_file.read_x_register(rs1);
                let src2 = register_file.read_x_register(rs2);
                write_next_exec(register_file, rd, src1 | src2);
            },
            RV32IInstuction::AND { rd, rs1, rs2 } => {
                let src1 = register_file.read_x_register(rs1);
                let src2 = register_file.read_x_register(rs2);
                write_next_exec(register_file, rd, src1 & src2);
            },
            RV32IInstuction::JAL { rd, imm } => {
                let offset = sign_extend_64(imm as u64, 20);
                let pc = register_file.read_pc();
                register_file.write_x_register(rd, pc.wrapping_add(INSTRUCTION_SIZE));
                register_file.offset_pc(offset);
            },
            RV32IInstuction::JALR { rd, rs1, imm } => {
                let target = effective_address(register_file, rs1, imm) & !1u64;
                let pc = register_file.read_pc();
                register_file.write_x_register(rd, pc.wrapping_add(INSTRUCTION_SIZE));
                register_file.write_pc(target);
            },
            RV32IInstuction::BEQ { rs1, rs2, imm } => {
                let src1 = register_file.read_x_register(rs1);
                let src2 = register_file.read_x_register(rs2);
                take_branch(register_file, src1 == src2, imm);
            },
            RV32IInstuction::BNE { rs1, rs2, imm } => {
                let src1 = register_file.read_x_register(rs1);
                let src2 = register_file.read_x_register(rs2);
                take_branch(register_file, src1 != src2, imm);
            },
            RV32IInstuction::BLT { rs1, rs2, imm } => {
                let src1 = register_file.read_x_register_sign_extended(rs1) as i64;
                let src2 = register_file.read_x_register_sign_extended(rs2) as i64;
                take_branch(register_file, src1 < src2, imm);
            },
            RV32IInstuction::BLTU { rs1, rs2, imm } => {
                let src1 = register_file.read_x_register_sign_extended(rs1);
                let src2 = register_file.read_x_register_sign_extended(rs2);
                take_branch(register_file, src1 < src2, imm);
            },
            RV32IInstuction::BGE { rs1, rs2, imm } => {
                let src1 = register_file.read_x_register_sign_extended(rs1) as i64;
                let src2 = register_file.read_x_register_sign_extended(rs2) as i64;
                take_branch(register_file, src1 >= src2, imm);
            },
            RV32IInstuction::BGEU { rs1, rs2, imm } => {
                let src1 = register_file.read_x_register_sign_extended(rs1);
                let src2 = register_file.read_x_register_sign_extended(rs2);
                take_branch(register_file, src1 >= src2, imm);
            },
            RV32IInstuction::LB { rd, rs1, imm } => {
                let addr = effective_address(register_file, rs1, imm);
                if !fits(memory, addr, 1) {
                    return Err(Fault::MemoryOutOfBounds);
                }
                let val = sign_extend_64(memory[addr as usize] as u64, 7);
                write_next_exec(register_file, rd, val);
            },
            RV32IInstuction::LH { rd, rs1, imm } => {
                let addr = effective_address(register_file, rs1, imm);
                if !fits(memory, addr, 2) {
                    return Err(Fault::MemoryOutOfBounds);
                }
                let a = addr as usize;
                let raw = (memory[a] as u64) | ((memory[a + 1] as u64) << 8u64);
                write_next_exec(register_file, rd, sign_extend_64(raw, 15));
            },
            RV32IInstuction::LW { rd, rs1, imm } => {
                let addr = effective_address(register_file, rs1, imm);
                if !fits(memory, addr, 4) {
                    return Err(Fault::MemoryOutOfBounds);
                }
                let a = addr as usize;
                let raw = (memory[a] as u64) | ((memory[a + 1] as u64) << 8u64) | ((memory[a
                    + 2] as u64) << 16u64) | ((memory[a + 3] as u64) << 24u64);
                write_next_exec(register_file, rd, sign_extend_64(raw, 31));
            },
            RV32IInstuction::LBU { rd, rs1, imm } => {
                let addr = effective_address(register_file, rs1, imm);
                if !fits(memory, addr, 1) {
                    return Err(Fault::MemoryOutOfBounds);
                }
                let val = memory[addr as usize] as u64;
                write_next_exec(register_file, rd, val);
            },
            RV32IInstuction::LHU { rd, rs1, imm } => {
                let addr = effective_address(register_file, rs1, imm);
                if !fits(memory, addr, 2) {
                    return Err(Fault::MemoryOutOfBounds);
                }
                let a = addr as usize;
                let raw = (memory[a] as u64) | ((memory[a + 1] as u64) << 8u64);
                write_next_exec(register_file, rd, raw);
            },
            RV32IInstuction::SB { rs1, rs2, imm } => {
                let addr = effective_address(register_file, rs1, imm);
                if !fits(memory, addr, 1) {
                    return Err(Fault::MemoryOutOfBounds);
                }
                let src = register_file.read_x_register(rs2);
                memory[addr as usize] = src as u8;
                register_file.inc_pc(INSTRUCTION_SIZE);
            },
            RV32IInstuction::SH { rs1, rs2, imm } => {
                let addr = effective_address(register_file, rs1, imm);
                if !fits(memory, addr, 2) {
                    return Err(Fault::MemoryOutOfBounds);
                }
                let src = register_file.read_x_register(rs2);
                let a = addr as usize;
                memory[a] = src as u8;
                memory[a + 1] = (src >> 8u64) as u8;
                register_file.inc_pc(INSTRUCTION_SIZE);
            },
            RV32IInstuction::SW { rs1, rs2, imm } => {
                let addr = effective_address(register_file, rs1, imm);
                if !fits(memory, addr, 4) {
                    return Err(Fault::MemoryOutOfBounds);
                }
                let src = register_file.read_x_register(rs2);
                let hi = src >> 16u64;
                let a = addr as usize;
                memory[a] = src as u8;
                memory[a + 1] = (src >> 8u64) as u8;
                memory[a + 2] = hi as u8;
                memory[a + 3] = (hi >> 8u64) as u8;
                register_file.inc_pc(INSTRUCTION_SIZE);
            },
            RV32IInstuction::FENCE { .. } | RV32IInstuction::ECALL | RV32IInstuction::EBREAK => {
                register_file.inc_pc(INSTRUCTION_SIZE);
            },
        }
        Ok(())
    }
}

impl ZifenceiInstructions {
    /// The register file after executing this instruction: there is no
    /// instruction cache to synchronise, so only the program counter moves.
    pub open spec fn exec_spec(self, rf: RegisterFileView) -> RegisterFileView {
        rf.advance_pc(INSTRUCTION_SIZE)
    }

    pub fn exec(&self, register_file: &mut RegisterFile, memory: &mut [u8])
        ensures
            final(register_file)@ == self.exec_spec(old(register_file)@),
            final(memory)@ == old(memory)@,
    {
        match *self {
            ZifenceiInstructions::FenceI => register_file.inc_pc(INSTRUCTION_SIZE),
        }
    }
}

impl Instruction {
    /// The register file and memory after executing this instruction, or
    /// `None` when it accesses memory out of bounds.
    pub open spec fn exec_spec(self, rf: RegisterFileView, mem: Seq<u8>) -> Option<
        (RegisterFileView, Seq<u8>),
    > {
        match self {
            Instruction::RV32I(i) => i.exec_spec(rf, mem),
            Instruction::Zifencei(i) => Some((i.exec_spec(rf), mem)),
        }
    }

    /// Executes the instruction. A load or store outside memory changes
    /// nothing and reports `MemoryOutOfBounds`.
    pub fn exec(&self, register_file: &mut RegisterFile, memory: &mut [u8]) -> (r: Result<(), Fault>)
        requires
            self.wf(),
        ensures
            match self.exec_spec(old(register_file)@, old(memory)@) {
                Some((rf, mem)) => {
                    &&& r == Ok::<(), Fault>(())
                    &&& final(register_file)@ == rf
                    &&& final(memory)@ == mem
                },
                None => {
                    &&& r == Err::<(), Fault>(Fault::MemoryOutOfBounds)
                    &&& final(register_file)@ == old(register_file)@
                    &&& final(memory)@ == old(memory)@
                },
            },
    {
        match self {
            Instruction::RV32I(instr) => instr.exec(register_file, memory),
            Instruction::Zifencei(instr) => {
                instr.exec(register_file, memory);
                Ok(())
            },
        }
    }
}

impl RV32IInstuction {
    /// Assembly-style rendering: the mnemonic, then registers as `x<n>`;
    /// arithmetic immediates in decimal, other immediates and offsets in
    /// upper-case hexadecimal, fence sets in binary.
    pub open spec fn log_text(self) -> Seq<char> {
        match self {
            RV32IInstuction::ADDI { rd, rs1, imm } => asm3("addi"@, reg_text(rd), reg_text(rs1), decimal(imm as nat)),
            RV32IInstuction::SLTI { rd, rs1, imm } => asm3("slti"@, reg_text(rd), reg_text(rs1), decimal(imm as nat)),
            RV32IInstuction::SLTIU { rd, rs1, imm } => asm3("sltiu"@, reg_text(rd), reg_text(rs1), decimal(imm as nat)),
            RV32IInstuction::XORI { rd, rs1, imm } => asm3("xori"@, reg_text(rd), reg_text(rs1), decimal(imm as nat)),
            RV32IInstuction::ORI { rd, rs1, imm } => asm3("ori"@, reg_text(rd), reg_text(rs1), decimal(imm as nat)),
            RV32IInstuction::ANDI { rd, rs1, imm } => asm3("andi"@, reg_text(rd), reg_text(rs1), decimal(imm as nat)),
            RV32IInstuction::SLLI { rd, rs1, imm } => asm3("slli"@, reg_text(rd), reg_text(rs1), decimal(imm as nat)),
            RV32IInstuction::SRLI { rd, rs1, imm } => asm3("srli"@, reg_text(rd), reg_text(rs1), decimal(imm as nat)),
            RV32IInstuction::SRAI { rd, rs1, imm } => asm3("srai"@, reg_text(rd), reg_text(rs1), decimal(imm as nat)),
            RV32IInstuction::LUI { rd, imm } => asm2("lui"@, reg_text(rd), hex_upper(imm as nat)),
            RV32IInstuction::AUIPC { rd, imm } => asm2("auipc"@, reg_text(rd), hex_upper(imm as nat)),
            RV32IInstuction::ADD { rd, rs1, rs2 } => asm3("add"@, reg_text(rd), reg_text(rs1), reg_text(rs2)),
            RV32IInstuction::SUB { rd, rs1, rs2 } => asm3("sub"@, reg_text(rd), reg_text(rs1), reg_text(rs2)),
            RV32IInstuction::SLL { rd, rs1, rs2 } => asm3("sll"@, reg_text(rd), reg_text(rs1), reg_text(rs2)),
            RV32IInstuction::SLT { rd, rs1, rs2 } => asm3("slt"@, reg_text(rd), reg_text(rs1), reg_text(rs2)),
            RV32IInstuction::SLTU { rd, rs1, rs2 } => asm3("sltu"@, reg_text(rd), reg_text(rs1), reg_text(rs2)),
            RV32IInstuction::XOR { rd, rs1, rs2 } => asm3("xor"@, reg_text(rd), reg_text(rs1), reg_text(rs2)),
            RV32IInstuction::SRL { rd, rs1, rs2 } => asm3("srl"@, reg_text(rd), reg_text(rs1), reg_text(rs2)),
            RV32IInstuction::SRA { rd, rs1, rs2 } => asm3("sra"@, reg_text(rd), reg_text(rs1), reg_text(rs2)),
            RV32IInstuction::OR { rd, rs1, rs2 } => asm3("or"@, reg_text(rd), reg_text(rs1), reg_text(rs2)),
            RV32IInstuction::AND { rd, rs1, rs2 } => asm3("and"@, reg_text(rd), reg_text(rs1), reg_text(rs2)),
            RV32IInstuction::JAL { rd, imm } => asm2("jal"@, reg_text(rd), hex_upper(imm as nat)),
            RV32IInstuction::JALR { rd, rs1, imm } => asm3("jalr"@, reg_text(rd), reg_text(rs1), hex_upper(imm as nat)),
            RV32IInstuction::BEQ { rs1, rs2, imm } => asm3("beq"@, reg_text(rs1), reg_text(rs2), hex_upper(imm as nat)),
            RV32IInstuction::BNE { rs1, rs2, imm } => asm3("bne"@, reg_text(rs1), reg_text(rs2), hex_upper(imm as nat)),
            RV32IInstuction::BLT { rs1, rs2, imm } => asm3("blt"@, reg_text(rs1), reg_text(rs2), hex_upper(imm as nat)),
            RV32IInstuction::BLTU { rs1, rs2, imm } => asm3("bltu"@, reg_text(rs1), reg_text(rs2), hex_upper(imm as nat)),
            RV32IInstuction::BGE { rs1, rs2, imm } => asm3("bge"@, reg_text(rs1), reg_text(rs2), hex_upper(imm as nat)),
            RV32IInstuction::BGEU { rs1, rs2, imm } => asm3("bgeu"@, reg_text(rs1), reg_text(rs2), hex_upper(imm as nat)),
            RV32IInstuction::SB { rs1, rs2, imm } => asm3("sb"@, reg_text(rs1), reg_text(rs2), hex_upper(imm as nat)),
            RV32IInstuction::SH { rs1, rs2, imm } => asm3("sh"@, reg_text(rs1), reg_text(rs2), hex_upper(imm as nat)),
            RV32IInstuction::SW { rs1, rs2, imm } => asm3("sw"@, reg_text(rs1), reg_text(rs2), hex_upper(imm as nat)),
            RV32IInstuction::LB { rd, rs1, imm } => asm3("lb"@, reg_text(rd), reg_text(rs1), hex_upper(imm as nat)),
            RV32IInstuction::LH { rd, rs1, imm } => asm3("lh"@, reg_text(rd), reg_text(rs1), hex_upper(imm as nat)),
            RV32IInstuction::LW { rd, rs1, imm } => asm3("lw"@, reg_text(rd), reg_text(rs1), hex_upper(imm as nat)),
            RV32IInstuction::LBU { rd, rs1, imm } => asm3("lbu"@, reg_text(rd), reg_text(rs1), hex_upper(imm as nat)),
            RV32IInstuction::LHU { rd, rs1, imm } => asm3("lhu"@, reg_text(rd), reg_text(rs1), hex_upper(imm as nat)),
            RV32IInstuction::FENCE { succ, pred, fm, .. } => asm3("fence"@, binary(succ as nat), binary(pred as nat), binary(fm as nat)),
            RV32IInstuction::ECALL => "ecall"@,
            RV32IInstuction::EBREAK => "ebreak"@,
        }
    }

    pub fn log(&self) -> (s: String)
        ensures
            s@ == self.log_text(),
    {
        match *self {
            RV32IInstuction::ADDI { rd, rs1, imm } => fmt3("addi", reg(rd), reg(rs1), dec_text(imm as u64)),
            RV32IInstuction::SLTI { rd, rs1, imm } => fmt3("slti", reg(rd), reg(rs1), dec_text(imm as u64)),
            RV32IInstuction::SLTIU { rd, rs1, imm } => fmt3("sltiu", reg(rd), reg(rs1), dec_text(imm as u64)),
            RV32IInstuction::XORI { rd, rs1, imm } => fmt3("xori", reg(rd), reg(rs1), dec_text(imm as u64)),
            RV32IInstuction::ORI { rd, rs1, imm } => fmt3("ori", reg(rd), reg(rs1), dec_text(imm as u64)),
            RV32IInstuction::ANDI { rd, rs1, imm } => fmt3("andi", reg(rd), reg(rs1), dec_text(imm as u64)),
            RV32IInstuction::SLLI { rd, rs1, imm } => fmt3("slli", reg(rd), reg(rs1), dec_text(imm as u64)),
            RV32IInstuction::SRLI { rd, rs1, imm } => fmt3("srli", reg(rd), reg(rs1), dec_text(imm as u64)),
            RV32IInstuction::SRAI { rd, rs1, imm } => fmt3("srai", reg(rd), reg(rs1), dec_text(imm as u64)),
            RV32IInstuction::LUI { rd, imm } => fmt2("lui", reg(rd), hex_text(imm as u64)),
            RV32IInstuction::AUIPC { rd, imm } => fmt2("auipc", reg(rd), hex_text(imm as u64)),
            RV32IInstuction::ADD { rd, rs1, rs2 } => fmt3("add", reg(rd), reg(rs1), reg(rs2)),
            RV32IInstuction::SUB { rd, rs1, rs2 } => fmt3("sub", reg(rd), reg(rs1), reg(rs2)),
            RV32IInstuction::SLL { rd, rs1, rs2 } => fmt3("sll", reg(rd), reg(rs1), reg(rs2)),
            RV32IInstuction::SLT { rd, rs1, rs2 } => fmt3("slt", reg(rd), reg(rs1), reg(rs2)),
            RV32IInstuction::SLTU { rd, rs1, rs2 } => fmt3("sltu", reg(rd), reg(rs1), reg(rs2)),
            RV32IInstuction::XOR { rd, rs1, rs2 } => fmt3("xor", reg(rd), reg(rs1), reg(rs2)),
            RV32IInstuction::SRL { rd, rs1, rs2 } => fmt3("srl", reg(rd), reg(rs1), reg(rs2)),
            RV32IInstuction::SRA { rd, rs1, rs2 } => fmt3("sra", reg(rd), reg(rs1), reg(rs2)),
            RV32IInstuction::OR { rd, rs1, rs2 } => fmt3("or", reg(rd), reg(rs1), reg(rs2)),
            RV32IInstuction::AND { rd, rs1, rs2 } => fmt3("and", reg(rd), reg(rs1), reg(rs2)),
            RV32IInstuction::JAL { rd, imm } => fmt2("jal", reg(rd), hex_text(imm as u64)),
            RV32IInstuction::JALR { rd, rs1, imm } => fmt3("jalr", reg(rd), reg(rs1), hex_text(imm as u64)),
            RV32IInstuction::BEQ { rs1, rs2, imm } => fmt3("beq", reg(rs1), reg(rs2), hex_text(imm as u64)),
            RV32IInstuction::BNE { rs1, rs2, imm } => fmt3("bne", reg(rs1), reg(rs2), hex_text(imm as u64)),
            RV32IInstuction::BLT { rs1, rs2, imm } => fmt3("blt", reg(rs1), reg(rs2), hex_text(imm as u64)),
            RV32IInstuction::BLTU { rs1, rs2, imm } => fmt3("bltu", reg(rs1), reg(rs2), hex_text(imm as u64)),
            RV32IInstuction::BGE { rs1, rs2, imm } => fmt3("bge", reg(rs1), reg(rs2), hex_text(imm as u64)),
            RV32IInstuction::BGEU { rs1, rs2, imm } => fmt3("bgeu", reg(rs1), reg(rs2), hex_text(imm as u64)),
            RV32IInstuction::SB { rs1, rs2, imm } => fmt3("sb", reg(rs1), reg(rs2), hex_text(imm as u64)),
            RV32IInstuction::SH { rs1, rs2, imm } => fmt3("sh", reg(rs1), reg(rs2), hex_text(imm as u64)),
            RV32IInstuction::SW { rs1, rs2, imm } => fmt3("sw", reg(rs1), reg(rs2), hex_text(imm as u64)),
            RV32IInstuction::LB { rd, rs1, imm } => fmt3("lb", reg(rd), reg(rs1), hex_text(imm as u64)),
            RV32IInstuction::LH { rd, rs1, imm } => fmt3("lh", reg(rd), reg(rs1), hex_text(imm as u64)),
            RV32IInstuction::LW { rd, rs1, imm } => fmt3("lw", reg(rd), reg(rs1), hex_text(imm as u64)),
            RV32IInstuction::LBU { rd, rs1, imm } => fmt3("lbu", reg(rd), reg(rs1), hex_text(imm as u64)),
            RV32IInstuction::LHU { rd, rs1, imm } => fmt3("lhu", reg(rd), reg(rs1), hex_text(imm as u64)),
            RV32IInstuction::FENCE { succ, pred, fm, .. } => fmt3("fence", bin_text(succ as u64), bin_text(pred as u64), bin_text(fm as u64)),
            RV32IInstuction::ECALL => String::from_str("ecall"),
            RV32IInstuction::EBREAK => String::from_str("ebreak"),
        }
    }
}

impl ZifenceiInstructions {
    pub open spec fn log_text(self) -> Seq<char> {
        "fence.i"@
    }

    pub fn log(&self) -> (s: String)
        ensures
            s@ == self.log_text(),
    {
        String::from_str("fence.i")
    }
}

impl Instruction {
    /// The rendering of the instruction alone.
    pub open spec fn asm_text(self) -> Seq<char> {
        match self {
            Instruction::RV32I(i) => i.log_text(),
            Instruction::Zifencei(i) => i.log_text(),
        }
    }

    /// A trace line: the encoded word in upper-case hexadecimal, ` | `, then
    /// the assembly-style rendering.
    pub open spec fn log_text(self) -> Seq<char> {
        hex_upper(encode_spec(self) as nat) + " | "@ + self.asm_text()
    }

    pub fn log(&self) -> (s: String)
        ensures
            s@ == self.log_text(),
    {
        let encoded = InstructionEncoding32::encode(*self);
        let mut s = hex_text(encoded.0 as u64);
        s.append(" | ");
        let body = match self {
            Instruction::RV32I(instr) => instr.log(),
            Instruction::Zifencei(instr) => instr.log(),
        };
        s.append(body.as_str());
        s
    }
}

proof fn lemma_word_bytes(v: u64)
    by (bit_vector)
    ensures
        ((v as u8) as u64) | ((((v >> 8u64) as u8) as u64) << 8u64) | ((((v >> 16u64) as u8) as u64)
            << 16u64) | (((((v >> 16u64) >> 8u64) as u8) as u64) << 24u64) == v & 0xFFFF_FFFF,
        v <= 0xFFFF_FFFF ==> sign_extend(v, 31) & 0xFFFF_FFFF == v,
{
}

/// A word stored with `SW` and loaded back with `LW` through the same base
/// register and offset reads back as the low 32 bits of the stored register,
/// sign-extended to the register width; with 32-bit registers it is exactly
/// the stored value.
pub proof fn lemma_store_then_load_word(
    rf: RegisterFileView,
    mem: Seq<u8>,
    rd: u8,
    rs1: u8,
    rs2: u8,
    imm: u16,
)
    requires
        rf.wf(),
        0 < rd < 32,
        rs1 < 32,
        rs2 < 32,
        in_bounds(mem, effective_addr(rf, rs1, imm), 4),
    ensures
        ({
            let (rf1, mem1) = RV32IInstuction::SW { rs1, rs2, imm }.exec_spec(rf, mem)->0;
            let loaded = RV32IInstuction::LW { rd, rs1, imm }.exec_spec(rf1, mem1);
            let (rf2, mem2) = loaded->0;
            &&& loaded is Some
            &&& rf2.x[rd as int] == rf.fit(sign_extend(rf.x[rs2 as int] & 0xFFFF_FFFF, 31))
            &&& rf.is_32_bit ==> rf2.x[rd as int] == rf.x[rs2 as int]
        }),
{
    let a = effective_addr(rf, rs1, imm) as int;
    let v = rf.x[rs2 as int];
    let m1 = store32(mem, a, v);
    assert(m1[a] == v as u8);
    assert(m1[a + 1] == (v >> 8u64) as u8);
    assert(m1[a + 2] == (v >> 16u64) as u8);
    assert(m1[a + 3] == ((v >> 16u64) >> 8u64) as u8);
    lemma_word_bytes(v);
    assert(le32(m1, a) == v & 0xFFFF_FFFF);
    if rf.is_32_bit {
        lemma_word_bytes(sign_extend(v & 0xFFFF_FFFF, 31));
        assert(v <= 0xFFFF_FFFF);
        assert(v & 0xFFFF_FFFF == v) by (bit_vector)
            requires
                v <= 0xFFFF_FFFF,
        ;
    }
}

} // verus!
