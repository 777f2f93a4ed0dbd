//! The cycle: fetch the word at the program counter, decode it, execute it,
//! and tell the caller what to do next.

use vstd::prelude::*;
use crate::fault::Fault;
use crate::instruction::{parse_instruction, Instruction};
use crate::machine::{Machine, VM};
use crate::semantics::follows;

verus! {

/// What the driver of the machine does after a cycle.
#[derive(Debug, Clone, Copy, PartialEq, Eq, Structural)]
pub enum CycleOutcome {
    /// The cycle faulted: stop, and report the fault.
    Halt(Fault),
    /// The grid was written since it was last painted: paint it, then go on.
    Repaint,
    /// Nothing to paint: go on.
    Continue,
}

/// Draws one byte from `rand::random`, which takes it from the generator of
/// the calling thread.
///
/// Nothing is claimed of the byte: callers hold for every value. The outside
/// function aborts the thread where the operating system gives the
/// generator no seed; no input of ours decides that.
#[verifier::external_body]
fn random_byte() -> (byte: u8) {
    rand::random::<u8>()
}

/// What a cycle that drew the byte `random` leaves to the driver: the state
/// with the dirty flag taken, and the outcome.
pub open spec fn outcome_of(before: Machine, random: u8) -> (Machine, CycleOutcome) {
    match before.cycle(random) {
        Err(fault) => (before, CycleOutcome::Halt(fault)),
        Ok(next) => (
            Machine { screen: next.screen.acknowledge(), ..next },
            if next.screen.dirty {
                CycleOutcome::Repaint
            } else {
                CycleOutcome::Continue
            },
        ),
    }
}

/// Runs one cycle: fetches the word at the program counter, decodes it and
/// executes the instruction.
///
/// The random instruction draws a fresh byte; whatever byte it was, the
/// machine did what the cycle asks for with that byte. No other instruction
/// depends on it. A faulting cycle changes nothing.
pub fn processor_cycle(vm: &mut VM) -> (r: Result<(), Fault>)
    ensures
        exists|random: u8| follows(old(vm)@, #[trigger] old(vm)@.cycle(random), final(vm)@, r),
        old(vm)@.stack_bounded() ==> final(vm)@.stack_bounded(),
{
    let raw_instruction: u16 = match vm.fetch() {
        Ok(word) => word,
        Err(fault) => return Err(fault),
    };
    let instruction = match parse_instruction(raw_instruction) {
        Ok(instruction) => instruction,
        Err(error) => {
            assert(follows(vm@, vm@.cycle(0), vm@, Err(Fault::Decode(error))));
            return Err(Fault::Decode(error));
        },
    };
    let random: u8 = match instruction {
        Instruction::SetVxRandNn { .. } => random_byte(),
        _ => 0,
    };
    let r = vm.execute(instruction, random);
    assert(follows(old(vm)@, old(vm)@.cycle(random), vm@, r));
    r
}

/// Runs one cycle and says what the driver does next: halt on a fault,
/// paint where the grid is dirty, else go on. The dirty flag is taken, so a
/// grid is painted once for what was written to it.
pub fn run_cycle(vm: &mut VM) -> (outcome: CycleOutcome)
    ensures
        exists|random: u8| #[trigger] outcome_of(old(vm)@, random) == (final(vm)@, outcome),
        old(vm)@.stack_bounded() ==> final(vm)@.stack_bounded(),
{
    match processor_cycle(vm) {
        Err(fault) => {
            proof {
                let random = choose|random: u8|
                    follows(old(vm)@, #[trigger] old(vm)@.cycle(random), vm@, Err(fault));
                assert(outcome_of(old(vm)@, random) == (vm@, CycleOutcome::Halt(fault)));
            }
            CycleOutcome::Halt(fault)
        },
        Ok(()) => {
            let ghost ran = vm@;
            let dirty = vm.display.take_dirty();
            let outcome = if dirty {
                CycleOutcome::Repaint
            } else {
                CycleOutcome::Continue
            };
            proof {
                let random = choose|random: u8|
                    follows(old(vm)@, #[trigger] old(vm)@.cycle(random), ran, Ok(()));
                assert(outcome_of(old(vm)@, random) == (vm@, outcome));
            }
            outcome
        },
    }
}

} // verus!
