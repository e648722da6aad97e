//! The execution engine: code and data buffers around a register file, and
//! the fetch-decode-execute step.
use vstd::prelude::*;

use crate::encoding::{decode_spec, InstructionEncoding32};
use crate::fault::Fault;
use crate::instructions::Instruction;
use crate::isa::{base_isa_info, ext_isa_info, BaseIsa, BaseIsaInfo, ExtensionIsa, ExtensionIsaInfo};
use crate::registers::{RegisterFile, RegisterFileView};

verus! {

pub struct EmulationSettings {
    /// Print the each instruction being execute
    pub print_instructions: bool,
}

/// The little-endian word at `a`.
pub open spec fn word_at(code: Seq<u8>, a: int) -> u32 {
    (code[a] as u32) | ((code[a + 1] as u32) << 8u32) | ((code[a + 2] as u32) << 16u32) | ((code[a
        + 3] as u32) << 24u32)
}

/// The instruction word at `pc`, or `None` when it does not lie wholly
/// inside the code.
pub open spec fn fetch_spec(code: Seq<u8>, pc: u64) -> Option<u32> {
    if pc + 4 <= code.len() {
        Some(word_at(code, pc as int))
    } else {
        None
    }
}

/// The instruction at `pc`, or the fault that stops its fetch or decode.
pub open spec fn fetch_decode_spec(code: Seq<u8>, pc: u64) -> Result<Instruction, Fault> {
    match fetch_spec(code, pc) {
        None => Err(Fault::FetchOutOfBounds),
        Some(w) => match decode_spec(w) {
            None => Err(Fault::IllegalInstruction),
            Some(i) => Ok(i),
        },
    }
}

/// Register file and memory after one fetch-decode-execute step, or the
/// fault that stops it.
pub open spec fn step_spec(rf: RegisterFileView, mem: Seq<u8>, code: Seq<u8>) -> Result<
    (RegisterFileView, Seq<u8>),
    Fault,
> {
    match fetch_decode_spec(code, rf.pc) {
        Err(f) => Err(f),
        Ok(i) => match i.exec_spec(rf, mem) {
            None => Err(Fault::MemoryOutOfBounds),
            Some(next) => Ok(next),
        },
    }
}

/// Register file and memory after up to `n` steps, and the fault that
/// stopped the run early, if one did; a faulting step changes nothing.
pub open spec fn run_spec(rf: RegisterFileView, mem: Seq<u8>, code: Seq<u8>, n: nat) -> (
    RegisterFileView,
    Seq<u8>,
    Option<Fault>,
)
    decreases n,
{
    if n == 0 {
        (rf, mem, None)
    } else {
        match step_spec(rf, mem, code) {
            Ok((rf2, mem2)) => run_spec(rf2, mem2, code, (n - 1) as nat),
            Err(f) => (rf, mem, Some(f)),
        }
    }
}

/// The texts of a list of trace lines.
pub open spec fn lines(v: Seq<String>) -> Seq<Seq<char>> {
    v.map_values(|l: String| l@)
}

/// The trace line of one step: the rendering of the instruction at `pc`,
/// when it can be fetched and decoded (whether or not it then faults).
pub open spec fn step_trace(code: Seq<u8>, pc: u64) -> Seq<Seq<char>> {
    match fetch_decode_spec(code, pc) {
        Ok(i) => seq![i.log_text()],
        Err(_) => Seq::empty(),
    }
}

/// The trace lines of up to `n` steps, in order, up to and including the
/// step that faults.
pub open spec fn run_trace(rf: RegisterFileView, mem: Seq<u8>, code: Seq<u8>, n: nat) -> Seq<
    Seq<char>,
>
    decreases n,
{
    if n == 0 {
        Seq::empty()
    } else {
        match fetch_decode_spec(code, rf.pc) {
            Err(_) => Seq::empty(),
            Ok(i) => seq![i.log_text()] + match i.exec_spec(rf, mem) {
                None => Seq::empty(),
                Some((rf2, mem2)) => run_trace(rf2, mem2, code, (n - 1) as nat),
            },
        }
    }
}

/// The base instruction set a recognised name selects, and whether it runs
/// with 32-bit registers.
pub open spec fn base_isa_named(name: Seq<char>) -> Option<(BaseIsa, bool)> {
    if name == "RVWMO"@ {
        Some((BaseIsa::RVWMO, false))
    } else if name == "RV32I"@ {
        Some((BaseIsa::RV32I, true))
    } else if name == "RV32E"@ {
        Some((BaseIsa::RV32E, true))
    } else if name == "RV64I"@ {
        Some((BaseIsa::RV64I, false))
    } else if name == "RV64E"@ {
        Some((BaseIsa::RV64E, false))
    } else if name == "RV128I"@ {
        Some((BaseIsa::RV128I, false))
    } else {
        None
    }
}

/// Operations of a CPU emulator.
pub trait CpuEmulator {
    /// Set the emulator settings
    fn set_settings(&mut self, settings: EmulationSettings);

    /// Set he base ISA, returns `true` if the given ISA was valid and set
    fn set_base_isa(&mut self, isa: &str) -> bool;

    /// Get all base ISAs supported by the CPU emulator
    fn get_base_isas(&self) -> &[BaseIsaInfo];

    /// Get all extension ISAs supported by the CPU emulator
    fn get_ext_isas(&self) -> &[ExtensionIsaInfo];

    /// Set the machine code to use
    fn set_code(&mut self, code: Vec<u8>);

    /// Set the program counter; it must be even.
    fn set_instruction_pointer(&mut self, pointer: usize) -> Result<(), Fault>;

    /// Execute a single instruction, appending its trace line to `trace` when tracing is on.
    fn tick(&mut self, trace: &mut Vec<String>) -> Result<(), Fault>;

    /// Execute `num_instructions` instructions, appending trace lines to `trace`.
    fn execute(&mut self, num_instructions: u32, trace: &mut Vec<String>) -> Result<(), Fault>;
}

pub struct RiscvEmulator {
    pub settings: EmulationSettings,
    pub base_isa: BaseIsa,
    pub extensions: ExtensionIsa,
    pub register_file: RegisterFile,
    pub machine_code: Vec<u8>,
    pub memory: Vec<u8>,
    pub base_isa_info: Vec<BaseIsaInfo>,
    pub ext_isa_info: Vec<ExtensionIsaInfo>,
}

/// Reads the instruction word at `pc`.
fn fetch(code: &Vec<u8>, pc: u64) -> (r: Option<u32>)
    ensures
        r == fetch_spec(code@, pc),
{
    let len = code.len() as u64;
    if pc > len || len - pc < 4 {
        return None;
    }
    let a = pc as usize;
    Some(
        (code[a] as u32) | ((code[a + 1] as u32) << 8u32) | ((code[a + 2] as u32) << 16u32) | ((
        code[a + 3] as u32) << 24u32),
    )
}

impl RiscvEmulator {
    pub fn new(settings: EmulationSettings) -> (r: Self)
        ensures
            r.settings == settings,
            r.base_isa == BaseIsa::RVWMO,
            r.extensions.bits == 0,
            r.register_file@ == (RegisterFileView {
                is_32_bit: false,
                x: Seq::new(32, |i: int| 0u64),
                pc: 0,
            }),
            r.machine_code@.len() == 0,
            r.memory@.len() == 0,
    {
        RiscvEmulator {
            settings,
            base_isa: BaseIsa::RVWMO,
            extensions: ExtensionIsa::none(),
            register_file: RegisterFile::new(false),
            machine_code: Vec::new(),
            memory: Vec::new(),
            base_isa_info: base_isa_info(),
            ext_isa_info: ext_isa_info(),
        }
    }

    pub fn set_settings(&mut self, settings: EmulationSettings)
        ensures
            final(self).settings == settings,
            final(self).base_isa == old(self).base_isa,
            final(self).register_file@ == old(self).register_file@,
            final(self).machine_code@ == old(self).machine_code@,
            final(self).memory@ == old(self).memory@,
    {
        self.settings = settings;
    }

    /// Selects a base instruction set by name and the register width that
    /// goes with it; an unrecognised name changes nothing.
    pub fn set_base_isa(&mut self, isa: &str) -> (r: bool)
        ensures
            r == base_isa_named(isa@) is Some,
            match base_isa_named(isa@) {
                Some((base, is_32_bit)) => {
                    &&& final(self).base_isa == base
                    &&& final(self).register_file@.is_32_bit == is_32_bit
                    &&& final(self).register_file@.x == (if is_32_bit {
                        old(self).register_file@.x.map_values(|v: u64| v & 0xFFFF_FFFFu64)
                    } else {
                        old(self).register_file@.x
                    })
                    &&& final(self).register_file@.pc == (if is_32_bit {
                        old(self).register_file@.pc & 0xFFFF_FFFFu64
                    } else {
                        old(self).register_file@.pc
                    })
                },
                None => {
                    &&& final(self).base_isa == old(self).base_isa
                    &&& final(self).register_file@ == old(self).register_file@
                },
            },
            final(self).settings == old(self).settings,
            final(self).machine_code@ == old(self).machine_code@,
            final(self).memory@ == old(self).memory@,
    {
        let name = isa.to_owned();
        let (base, is_32_bit) = if name == String::from_str("RVWMO") {
            (BaseIsa::RVWMO, false)
        } else if name == String::from_str("RV32I") {
            (BaseIsa::RV32I, true)
        } else if name == String::from_str("RV32E") {
            (BaseIsa::RV32E, true)
        } else if name == String::from_str("RV64I") {
            (BaseIsa::RV64I, false)
        } else if name == String::from_str("RV64E") {
            (BaseIsa::RV64E, false)
        } else if name == String::from_str("RV128I") {
            (BaseIsa::RV128I, false)
        } else {
            return false;
        };
        self.base_isa = base;
        self.register_file.set_32_bit(is_32_bit);
        true
    }

    pub fn get_base_isas(&self) -> (r: &[BaseIsaInfo])
        ensures
            r@ == self.base_isa_info@,
    {
        self.base_isa_info.as_slice()
    }

    pub fn get_ext_isas(&self) -> (r: &[ExtensionIsaInfo])
        ensures
            r@ == self.ext_isa_info@,
    {
        self.ext_isa_info.as_slice()
    }

    /// Replaces the code buffer.
    pub fn set_code(&mut self, code: Vec<u8>)
        ensures
            final(self).machine_code@ == code@,
            final(self).register_file@ == old(self).register_file@,
            final(self).memory@ == old(self).memory@,
            final(self).settings == old(self).settings,
            final(self).base_isa == old(self).base_isa,
    {
        self.machine_code = code;
    }

    /// Sets the program counter; an odd address is refused and changes nothing.
    pub fn set_instruction_pointer(&mut self, pointer: usize) -> (r: Result<(), Fault>)
        ensures
            pointer % 2 == 0 ==> {
                &&& r == Ok::<(), Fault>(())
                &&& final(self).register_file@ == old(self).register_file@.write_pc(pointer as u64)
            },
            pointer % 2 != 0 ==> {
                &&& r == Err::<(), Fault>(Fault::MisalignedPc)
                &&& final(self).register_file@ == old(self).register_file@
            },
            final(self).machine_code@ == old(self).machine_code@,
            final(self).memory@ == old(self).memory@,
            final(self).settings == old(self).settings,
    {
        if pointer % 2 != 0 {
            return Err(Fault::MisalignedPc);
        }
        self.register_file.write_pc(pointer as u64);
        Ok(())
    }

    /// Fetches, decodes and executes the instruction at the program counter.
    /// A fault changes nothing. When tracing is on, the instruction's trace
    /// line is appended to `trace` once it is decoded, before it executes.
    pub fn tick(&mut self, trace: &mut Vec<String>) -> (r: Result<(), Fault>)
        ensures
            match step_spec(old(self).register_file@, old(self).memory@, old(self).machine_code@) {
                Ok((rf, mem)) => {
                    &&& r is Ok
                    &&& final(self).register_file@ == rf
                    &&& final(self).memory@ == mem
                },
                Err(f) => {
                    &&& r == Err::<(), Fault>(f)
                    &&& final(self).register_file@ == old(self).register_file@
                    &&& final(self).memory@ == old(self).memory@
                },
            },
            lines(final(trace)@) == lines(old(trace)@) + (if old(self).settings.print_instructions {
                step_trace(old(self).machine_code@, old(self).register_file@.pc)
            } else {
                Seq::<Seq<char>>::empty()
            }),
            final(self).machine_code@ == old(self).machine_code@,
            final(self).settings == old(self).settings,
            final(self).base_isa == old(self).base_isa,
    {
        let pc = self.register_file.read_pc();
        let raw = match fetch(&self.machine_code, pc) {
            Some(w) => w,
            None => {
                assert(lines(trace@) =~= lines(trace@) + Seq::<Seq<char>>::empty());
                return Err(Fault::FetchOutOfBounds);
            },
        };
        let instr = match InstructionEncoding32(raw).decode() {
            Some(i) => i,
            None => {
                assert(lines(trace@) =~= lines(trace@) + Seq::<Seq<char>>::empty());
                return Err(Fault::IllegalInstruction);
            },
        };
        if self.settings.print_instructions {
            let line = instr.log();
            let ghost before = trace@;
            trace.push(line);
            assert(lines(trace@) =~= lines(before) + seq![instr.log_text()]);
        } else {
            assert(lines(trace@) =~= lines(trace@) + Seq::<Seq<char>>::empty());
        }
        instr.exec(&mut self.register_file, self.memory.as_mut_slice())
    }

    /// Executes `num_instructions` steps, stopping at the first fault. When
    /// tracing is on, the trace line of every instruction decoded (the
    /// faulting one included) is appended to `trace`, in order.
    pub fn execute(&mut self, num_instructions: u32, trace: &mut Vec<String>) -> (r: Result<(), Fault>)
        ensures
            ({
                let (rf, mem, fault) = run_spec(
                    old(self).register_file@,
                    old(self).memory@,
                    old(self).machine_code@,
                    num_instructions as nat,
                );
                &&& final(self).register_file@ == rf
                &&& final(self).memory@ == mem
                &&& match fault {
                    Some(f) => r == Err::<(), Fault>(f),
                    None => r == Ok::<(), Fault>(()),
                }
            }),
            lines(final(trace)@) == lines(old(trace)@) + (if old(self).settings.print_instructions {
                run_trace(
                    old(self).register_file@,
                    old(self).memory@,
                    old(self).machine_code@,
                    num_instructions as nat,
                )
            } else {
                Seq::<Seq<char>>::empty()
            }),
            final(self).machine_code@ == old(self).machine_code@,
            final(self).settings == old(self).settings,
    {
        let mut done: u32 = 0;
        while done < num_instructions
            invariant
                done <= num_instructions,
                self.machine_code@ == old(self).machine_code@,
                self.settings == old(self).settings,
                run_spec(
                    old(self).register_file@,
                    old(self).memory@,
                    old(self).machine_code@,
                    num_instructions as nat,
                ) == run_spec(
                    self.register_file@,
                    self.memory@,
                    self.machine_code@,
                    (num_instructions - done) as nat,
                ),
                lines(old(trace)@) + (if self.settings.print_instructions {
                    run_trace(
                        old(self).register_file@,
                        old(self).memory@,
                        old(self).machine_code@,
                        num_instructions as nat,
                    )
                } else {
                    Seq::<Seq<char>>::empty()
                }) == lines(trace@) + (if self.settings.print_instructions {
                    run_trace(
                        self.register_file@,
                        self.memory@,
                        self.machine_code@,
                        (num_instructions - done) as nat,
                    )
                } else {
                    Seq::<Seq<char>>::empty()
                }),
            decreases num_instructions - done,
        {
            let ghost rf0 = self.register_file@;
            let ghost mem0 = self.memory@;
            let ghost t0 = lines(trace@);
            let ghost k = (num_instructions - done) as nat;
            let step = self.tick(trace);
            proof {
                let code = self.machine_code@;
                let tail = if self.settings.print_instructions {
                    run_trace(self.register_file@, self.memory@, code, (k - 1) as nat)
                } else {
                    Seq::<Seq<char>>::empty()
                };
                let st = if self.settings.print_instructions {
                    step_trace(code, rf0.pc)
                } else {
                    Seq::<Seq<char>>::empty()
                };
                if step is Ok {
                    assert(t0 + (if self.settings.print_instructions {
                        run_trace(rf0, mem0, code, k)
                    } else {
                        Seq::<Seq<char>>::empty()
                    }) =~= t0 + st + tail);
                } else {
                    assert(t0 + (if self.settings.print_instructions {
                        run_trace(rf0, mem0, code, k)
                    } else {
                        Seq::<Seq<char>>::empty()
                    }) =~= t0 + st);
                }
            }
            match step {
                Ok(()) => {},
                Err(f) => {
                    assert(lines(trace@) =~= lines(trace@) + Seq::<Seq<char>>::empty());
                    return Err(f);
                },
            }
            done = done + 1;
        }
        assert(lines(trace@) =~= lines(trace@) + Seq::<Seq<char>>::empty());
        Ok(())
    }
}

impl CpuEmulator for RiscvEmulator {
    fn set_settings(&mut self, settings: EmulationSettings) {
        RiscvEmulator::set_settings(self, settings)
    }

    fn set_base_isa(&mut self, isa: &str) -> bool {
        RiscvEmulator::set_base_isa(self, isa)
    }

    fn get_base_isas(&self) -> &[BaseIsaInfo] {
        RiscvEmulator::get_base_isas(self)
    }

    fn get_ext_isas(&self) -> &[ExtensionIsaInfo] {
        RiscvEmulator::get_ext_isas(self)
    }

    fn set_code(&mut self, code: Vec<u8>) {
        RiscvEmulator::set_code(self, code)
    }

    fn set_instruction_pointer(&mut self, pointer: usize) -> Result<(), Fault> {
        RiscvEmulator::set_instruction_pointer(self, pointer)
    }

    fn tick(&mut self, trace: &mut Vec<String>) -> Result<(), Fault> {
        RiscvEmulator::tick(self, trace)
    }

    fn execute(&mut self, num_instructions: u32, trace: &mut Vec<String>) -> Result<(), Fault> {
        RiscvEmulator::execute(self, num_instructions, trace)
    }
}

} // verus!
