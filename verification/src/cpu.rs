//! The execution shell's state: memory, registers, the bounded call stack,
//! and the two timer values it mirrors each cycle. Its fetch-decode-execute
//! cycle is out of scope; only construction of the initial state is
//! defined, and pinned down exactly.

use vstd::prelude::*;

use crate::stack::Stack;

verus! {

broadcast use vstd::array::group_array_axioms;

/// Size of the emulated machine's memory, in bytes.
pub const RAM_SIZE: usize = 4096;

/// Number of general-purpose registers.
pub const REGISTER_COUNT: usize = 16;

/// Abstract state of the execution shell.
pub struct CpuView {
    pub ram: Seq<u8>,
    pub registers: Seq<u8>,
    pub stack: Seq<u16>,
    pub pc: u16,
    pub index: u16,
    pub delay_timer: u8,
    pub sound_timer: u8,
}

/// Memory, registers, call stack, program counter, index register, and the
/// locally mirrored timer values of the emulated machine.
pub struct CPU {
    ram: [u8; RAM_SIZE],
    registers: [u8; REGISTER_COUNT],
    stack: Stack,
    pc: u16,
    index: u16,
    delay_timer: u8,
    sound_timer: u8,
}

impl View for CPU {
    type V = CpuView;

    closed spec fn view(&self) -> CpuView {
        CpuView {
            ram: self.ram@,
            registers: self.registers@,
            stack: self.stack@,
            pc: self.pc,
            index: self.index,
            delay_timer: self.delay_timer,
            sound_timer: self.sound_timer,
        }
    }
}

impl CPU {
    /// Constructs the initial state: memory and registers zeroed, the call
    /// stack empty, and every counter and register value 0.
    pub fn new() -> (r: CPU)
        ensures
            r@.ram == Seq::new(RAM_SIZE as nat, |i: int| 0u8),
            r@.registers == Seq::new(REGISTER_COUNT as nat, |i: int| 0u8),
            r@.stack == Seq::<u16>::empty(),
            r@.pc == 0,
            r@.index == 0,
            r@.delay_timer == 0,
            r@.sound_timer == 0,
    {
        let cpu = CPU {
            ram: [0; RAM_SIZE],
            registers: [0; REGISTER_COUNT],
            stack: Stack::new(),
            pc: 0,
            index: 0,
            delay_timer: 0,
            sound_timer: 0,
        };
        proof {
            assert(cpu@.ram =~= Seq::new(RAM_SIZE as nat, |i: int| 0u8));
            assert(cpu@.registers =~= Seq::new(REGISTER_COUNT as nat, |i: int| 0u8));
        }
        cpu
    }
}

} // verus!
