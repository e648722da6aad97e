//! The integer register file: 32 general-purpose registers, the program
//! counter and the 32-bit width mode.
use vstd::prelude::*;

use crate::bits::{sign_extend, sign_extend_64};

verus! {

/// Number of general-purpose integer registers.
pub const REGISTER_COUNT: usize = 32;

/// The low 32 bits of a 64-bit word.
pub const LOW_32_MASK: u64 = 0xFFFF_FFFF;

/// Abstract state of a register file.
pub ghost struct RegisterFileView {
    pub is_32_bit: bool,
    pub x: Seq<u64>,
    pub pc: u64,
}

impl RegisterFileView {
    /// `v` as it is stored under the current width mode.
    pub open spec fn fit(self, v: u64) -> u64 {
        if self.is_32_bit {
            v & LOW_32_MASK
        } else {
            v
        }
    }

    /// The state after writing `v` to register `i`; register 0 ignores writes.
    pub open spec fn write_x(self, i: int, v: u64) -> RegisterFileView {
        if i == 0 {
            self
        } else {
            RegisterFileView { x: self.x.update(i, self.fit(v)), ..self }
        }
    }

    /// The state after setting the program counter to `v`.
    pub open spec fn write_pc(self, v: u64) -> RegisterFileView {
        RegisterFileView { pc: self.fit(v), ..self }
    }

    /// The state after adding `delta` to the program counter, wrapping.
    pub open spec fn advance_pc(self, delta: u64) -> RegisterFileView {
        self.write_pc(self.pc.wrapping_add(delta))
    }

    /// Register `i` read as a signed value of the current width, widened to 64 bits.
    pub open spec fn read_sext(self, i: int) -> u64 {
        if self.is_32_bit {
            sign_extend(self.x[i], 31)
        } else {
            self.x[i]
        }
    }

    /// Register 0 reads as zero, and in 32-bit mode every register and the
    /// program counter fit in 32 bits.
    pub open spec fn wf(self) -> bool {
        &&& self.x.len() == REGISTER_COUNT
        &&& self.x[0] == 0
        &&& self.is_32_bit ==> {
            &&& self.pc <= LOW_32_MASK
            &&& forall|i: int| 0 <= i < REGISTER_COUNT ==> #[trigger] self.x[i] <= LOW_32_MASK
        }
    }
}

pub struct RegisterFile {
    is_32_bit: bool,
    x: [u64; 32],
    pc: u64,
}

impl RegisterFile {
    /// Every register file is well formed (see `RegisterFileView::wf`).
    #[verifier::type_invariant]
    pub open spec fn inv(&self) -> bool {
        self@.wf()
    }
}

impl View for RegisterFile {
    type V = RegisterFileView;

    closed spec fn view(&self) -> RegisterFileView {
        RegisterFileView { is_32_bit: self.is_32_bit, x: self.x@, pc: self.pc }
    }
}

proof fn lemma_mask_bound(v: u64)
    ensures
        v & LOW_32_MASK <= LOW_32_MASK,
        v <= LOW_32_MASK ==> v & LOW_32_MASK == v,
        0u64 & LOW_32_MASK == 0,
{
    assert(v & LOW_32_MASK <= LOW_32_MASK) by (bit_vector);
    assert(v <= LOW_32_MASK ==> v & LOW_32_MASK == v) by (bit_vector);
    assert(0u64 & LOW_32_MASK == 0) by (bit_vector);
}

impl RegisterFile {
    pub fn new(is_32_bit: bool) -> (r: Self)
        ensures
            r@ == (RegisterFileView { is_32_bit, x: Seq::new(32, |i: int| 0u64), pc: 0 }),
    {
        let r = Self { is_32_bit, x: [0; 32], pc: 0 };
        assert(r@.x =~= Seq::new(32, |i: int| 0u64));
        r
    }

    /// Selects the width mode; entering 32-bit mode keeps only the low 32
    /// bits of every register and of the program counter.
    pub fn set_32_bit(&mut self, b: bool)
        ensures
            final(self)@.is_32_bit == b,
            final(self)@.x == (if b {
                old(self)@.x.map_values(|v: u64| v & LOW_32_MASK)
            } else {
                old(self)@.x
            }),
            final(self)@.pc == (if b { old(self)@.pc & LOW_32_MASK } else { old(self)@.pc }),
    {
        proof {
            use_type_invariant(&*self);
        }
        let mut x = self.x;
        let mut pc = self.pc;
        if b {
            let ghost before = x@;
            let mut i: usize = 0;
            while i < REGISTER_COUNT
                invariant
                    i <= REGISTER_COUNT,
                    x@.len() == REGISTER_COUNT,
                    before.len() == REGISTER_COUNT,
                    forall|j: int| 0 <= j < i ==> #[trigger] x@[j] == before[j] & LOW_32_MASK,
                    forall|j: int| i <= j < REGISTER_COUNT ==> #[trigger] x@[j] == before[j],
                decreases REGISTER_COUNT - i,
            {
                let v = x[i];
                x[i] = v & LOW_32_MASK;
                i = i + 1;
            }
            pc = pc & LOW_32_MASK;
            proof {
                assert(x@ =~= before.map_values(|v: u64| v & LOW_32_MASK));
                lemma_mask_bound(0);
                lemma_mask_bound(old(self).pc);
                assert forall|j: int| 0 <= j < REGISTER_COUNT implies #[trigger] x@[j]
                    <= LOW_32_MASK by {
                    lemma_mask_bound(before[j]);
                }
            }
        }
        *self = RegisterFile { is_32_bit: b, x, pc };
    }

    pub fn is_32_bit(&self) -> (r: bool)
        ensures
            r == self@.is_32_bit,
    {
        self.is_32_bit
    }

    pub fn read_x_register(&self, index: u8) -> (r: u64)
        requires
            index < 32,
        ensures
            r == self@.x[index as int],
    {
        self.x[index as usize]
    }

    /// Reads a register as a signed value of the current width: in 32-bit
    /// mode bit 31 is extended, otherwise the value is returned as stored.
    pub fn read_x_register_sign_extended(&self, index: u8) -> (r: u64)
        requires
            index < 32,
        ensures
            r == self@.read_sext(index as int),
    {
        let val = self.x[index as usize];
        if self.is_32_bit {
            sign_extend_64(val, 31)
        } else {
            val
        }
    }

    /// Writes a register, keeping the low 32 bits in 32-bit mode; a write to
    /// register 0 has no effect.
    pub fn write_x_register(&mut self, index: u8, value: u64)
        requires
            index < 32,
        ensures
            final(self)@ == old(self)@.write_x(index as int, value),
    {
        proof {
            use_type_invariant(&*self);
        }
        if index != 0 {
            proof {
                lemma_mask_bound(value);
            }
            let stored = if self.is_32_bit {
                value & LOW_32_MASK
            } else {
                value
            };
            self.x[index as usize] = stored;
            proof {
                assert(self@.x =~= old(self)@.x.update(index as int, stored));
                assert forall|j: int| 0 <= j < REGISTER_COUNT && self.is_32_bit implies #[trigger] self.x@[j]
                    <= LOW_32_MASK by {
                    if j != index {
                        assert(self.x@[j] == old(self)@.x[j]);
                    }
                }
            }
        }
    }

    pub fn read_pc(&self) -> (r: u64)
        ensures
            r == self@.pc,
    {
        self.pc
    }

    /// Sets the program counter, keeping the low 32 bits in 32-bit mode.
    pub fn write_pc(&mut self, value: u64)
        ensures
            final(self)@ == old(self)@.write_pc(value),
    {
        proof {
            use_type_invariant(&*self);
            lemma_mask_bound(value);
        }
        self.pc = if self.is_32_bit {
            value & LOW_32_MASK
        } else {
            value
        };
    }

    /// Adds `offset` to the program counter, wrapping around on overflow.
    pub fn offset_pc(&mut self, offset: u64)
        ensures
            final(self)@ == old(self)@.advance_pc(offset),
    {
        let target = self.pc.wrapping_add(offset);
        self.write_pc(target);
    }

    /// Advances the program counter by an instruction size, which is even.
    pub fn inc_pc(&mut self, size: u64)
        requires
            size % 2 == 0,
        ensures
            final(self)@ == old(self)@.advance_pc(size),
    {
        let target = self.pc.wrapping_add(size);
        self.write_pc(target);
    }
}

/// Whatever is written to whichever register, register 0 still reads zero;
/// a write to register 0 changes nothing at all.
pub proof fn lemma_register_zero_stays_zero(rf: RegisterFileView, i: int, v: u64)
    requires
        rf.wf(),
        0 <= i < REGISTER_COUNT,
    ensures
        rf.write_x(i, v).x[0] == 0,
        rf.write_x(0, v) == rf,
{
}

/// After switching to 32-bit mode (the register values of `after` are those
/// of `before` with only their low 32 bits kept) every register holds at most
/// `0xFFFF_FFFF`, whatever it held before.
pub proof fn lemma_width_truncation(before: RegisterFileView, after: RegisterFileView, i: int)
    requires
        before.wf(),
        after.x == before.x.map_values(|v: u64| v & LOW_32_MASK),
        0 <= i < REGISTER_COUNT,
    ensures
        after.x[i] <= LOW_32_MASK,
{
    lemma_mask_bound(before.x[i]);
}

} // verus!
