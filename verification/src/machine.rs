//! The state of the machine: memory, registers, call stack, timers, key latch
//! and framebuffer.

use std::collections::VecDeque;
use vstd::prelude::*;
use crate::framebuffer::{Framebuffer, Screen};

verus! {

pub const MEMORY_BYTES: usize = 4096;

/// Where a loaded program begins, and where a new machine starts to run.
pub const PROGRAM_START: usize = 0x200;

/// Return addresses that the call stack holds at most.
pub const STACK_CAPACITY: usize = 100;

pub const REGISTER_COUNT: usize = 16;

pub const KEY_COUNT: usize = 16;

/// The register that doubles as carry, borrow and collision flag.
pub const FLAG_REGISTER: usize = 0xF;

pub type Memory = [u8; MEMORY_BYTES];

/// The mathematical model of the machine state.
#[verifier::ext_equal]
pub struct Machine {
    pub memory: Seq<u8>,
    pub screen: Screen,
    /// Program counter: the address of the next instruction word.
    pub pc: u16,
    /// Index register.
    pub ir: u16,
    /// Return addresses, the most recent last.
    pub stack: Seq<u16>,
    /// General purpose registers V0 to VF.
    pub v: Seq<u8>,
    /// One flag per key code: whether the key is held down.
    pub keys: Seq<bool>,
    pub delay_timer: u8,
    pub sound_timer: u8,
}

impl Machine {
    /// Memory, registers, key latch and grid have their fixed sizes.
    pub open spec fn wf(self) -> bool {
        &&& self.memory.len() == MEMORY_BYTES
        &&& self.screen.wf()
        &&& self.v.len() == REGISTER_COUNT
        &&& self.keys.len() == KEY_COUNT
    }

    /// The call stack is within its capacity.
    pub open spec fn stack_bounded(self) -> bool {
        self.stack.len() <= STACK_CAPACITY
    }

    /// The state of a machine that was just made: everything zero, off or
    /// empty, and the program counter at the start of the program area.
    pub open spec fn initial() -> Machine {
        Machine {
            memory: Seq::new(MEMORY_BYTES as nat, |a: int| 0u8),
            screen: Screen::blank(),
            pc: PROGRAM_START as u16,
            ir: 0,
            stack: Seq::empty(),
            v: Seq::new(REGISTER_COUNT as nat, |i: int| 0u8),
            keys: Seq::new(KEY_COUNT as nat, |k: int| false),
            delay_timer: 0,
            sound_timer: 0,
        }
    }
}

/// The machine. Its fields are open to whoever drives it: the loader writes
/// memory, the input layer sets the key latch, the timing layer counts the
/// timers down.
pub struct VM {
    pub memory: Memory,
    pub display: Framebuffer,
    /// Program counter
    pub pc: u16,
    /// Index register
    pub ir: u16,
    /// Stack is for subroutines
    pub stack: VecDeque<u16>,
    /// General purpose registers
    pub v: [u8; 16],
    pub keys_pressed: [bool; 16],
    /// Timers, decremented at 60 Hz by whoever drives the machine
    pub delay_timer: u8,
    pub sound_timer: u8,
}

impl View for VM {
    type V = Machine;

    open spec fn view(&self) -> Machine {
        Machine {
            memory: self.memory@,
            screen: self.display@,
            pc: self.pc,
            ir: self.ir,
            stack: self.stack@,
            v: self.v@,
            keys: self.keys_pressed@,
            delay_timer: self.delay_timer,
            sound_timer: self.sound_timer,
        }
    }
}

impl VM {
    /// The model of every machine has the fixed sizes.
    pub proof fn lemma_view_wf(&self)
        ensures
            self@.wf(),
    {
        self.display.lemma_view_wf();
    }

    /// A machine with everything zero, off or empty, about to run from the
    /// start of the program area.
    pub fn new() -> (vm: VM)
        ensures
            vm@ == Machine::initial(),
    {
        VM {
            memory: [0; MEMORY_BYTES],
            display: Framebuffer::new(),
            pc: 0x200,
            ir: 0,
            stack: VecDeque::new(),
            v: [0; 16],
            keys_pressed: [false; 16],
            delay_timer: 0,
            sound_timer: 0,
        }
    }
}

} // verus!
