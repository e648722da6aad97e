//! Faults that stop execution.
use vstd::prelude::*;

verus! {

/// A condition past which execution cannot continue with defined state.
#[derive(Clone, Copy, PartialEq, Eq, Debug, Structural)]
pub enum Fault {
    /// A load or store touches bytes past the end of memory.
    MemoryOutOfBounds,
    /// The instruction fetch reaches past the end of the code buffer.
    FetchOutOfBounds,
    /// The fetched word encodes no supported instruction.
    IllegalInstruction,
    /// The program counter was set to an odd address.
    MisalignedPc,
}

} // verus!
