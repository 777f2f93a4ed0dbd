//! Laws of the instruction set, proved of the model that the engine is
//! verified against.
//!
//! The laws on instructions ask that the program counter can be moved past
//! the instruction: where it cannot, the instruction faults before it acts.

use vstd::prelude::*;
use crate::fault::Fault;
use crate::framebuffer::Screen;
use crate::instruction::{decode, word_group, Instruction};
use crate::machine::{Machine, FLAG_REGISTER, STACK_CAPACITY};
use crate::semantics::{any_pressed, flag, is_lowest_pressed, wrap8};

verus! {

/// A word decodes to an instruction of its own opcode group, with operands
/// in range, or to none: never to an instruction of another group.
pub proof fn law_decode_stays_in_group(word: u16)
    ensures
        decode(word) matches Some(instruction) ==> instruction.wf() && instruction.group()
            == word_group(word),
{
}

/// Addition: VX receives the sum of VX and VY reduced to eight bits, VF the
/// carry, and nothing else changes but the program counter. Neither operand
/// may be VF.
pub proof fn law_add_wraps_and_carries(s: Machine, x: usize, y: usize, random: u8)
    requires
        s.wf(),
        s.pc <= 0xFFFD,
        x < 16 && x != FLAG_REGISTER,
        y < 16 && y != FLAG_REGISTER,
    ensures
        s.step(Instruction::SetVxPlusVy { x, y }, random) == Ok::<Machine, Fault>(
            Machine {
                pc: (s.pc + 2) as u16,
                v: s.v.update(FLAG_REGISTER as int, flag(s.v[x as int] + s.v[y as int] > 0xFF)).update(
                    x as int,
                    wrap8(s.v[x as int] + s.v[y as int]),
                ),
                ..s
            },
        ),
        s.v[x as int] == 250 && s.v[y as int] == 10 ==> wrap8(s.v[x as int] + s.v[y as int]) == 4,
{
}

/// Subtraction: VX receives VX minus VY reduced to eight bits, and VF is 1
/// where VX was strictly greater than VY, else 0. Neither operand may be VF.
pub proof fn law_sub_wraps_and_flags(s: Machine, x: usize, y: usize, random: u8)
    requires
        s.wf(),
        s.pc <= 0xFFFD,
        x < 16 && x != FLAG_REGISTER,
        y < 16 && y != FLAG_REGISTER,
    ensures
        s.step(Instruction::SetVxMinusVy { x, y }, random) == Ok::<Machine, Fault>(
            Machine {
                pc: (s.pc + 2) as u16,
                v: s.v.update(FLAG_REGISTER as int, flag(s.v[x as int] > s.v[y as int])).update(
                    x as int,
                    wrap8(s.v[x as int] - s.v[y as int]),
                ),
                ..s
            },
        ),
        s.v[x as int] == 5 && s.v[y as int] == 10 ==> wrap8(s.v[x as int] - s.v[y as int]) == 251,
{
}

/// Reversed subtraction: VX receives VY minus VX reduced to eight bits, and
/// VF is 1 where VY was strictly greater than VX, else 0. Neither operand
/// may be VF.
pub proof fn law_reversed_sub_wraps_and_flags(s: Machine, x: usize, y: usize, random: u8)
    requires
        s.wf(),
        s.pc <= 0xFFFD,
        x < 16 && x != FLAG_REGISTER,
        y < 16 && y != FLAG_REGISTER,
    ensures
        s.step(Instruction::SetVyMinusVx { x, y }, random) == Ok::<Machine, Fault>(
            Machine {
                pc: (s.pc + 2) as u16,
                v: s.v.update(FLAG_REGISTER as int, flag(s.v[y as int] > s.v[x as int])).update(
                    x as int,
                    wrap8(s.v[y as int] - s.v[x as int]),
                ),
                ..s
            },
        ),
{
}

/// The random instruction leaves in VX no bit that the mask does not hold.
pub proof fn law_random_is_masked(s: Machine, x: usize, nn: u8, random: u8)
    requires
        s.wf(),
        s.pc <= 0xFFFD,
        x < 16,
    ensures
        s.step(Instruction::SetVxRandNn { x, nn }, random) matches Ok(next) && next.v[x as int]
            & !nn == 0,
{
    assert((random & nn) & !nn == 0) by (bit_vector);
}

/// Drawing the same sprite twice in succession at the same place leaves
/// every pixel as it was before the first drawing; so pixels that were off
/// are off again. The second drawing reports a collision exactly where the
/// sprite sets a pixel that was off before the first. The coordinates may
/// not be taken from VF, which the first drawing writes.
pub proof fn law_draw_twice_restores(
    s: Machine,
    x: usize,
    y: usize,
    n: u8,
    random: u8,
    again: u8,
)
    requires
        s.wf(),
        s.pc <= 0xFFFB,
        x < 16 && x != FLAG_REGISTER,
        y < 16 && y != FLAG_REGISTER,
        n < 16,
        s.step(Instruction::Display { x, y, n }, random) is Ok,
    ensures
        ({
            let once = s.step(Instruction::Display { x, y, n }, random)->Ok_0;
            let stamp = s.stamp(x as int, y as int, n as int);
            &&& once.step(Instruction::Display { x, y, n }, again) matches Ok(twice)
            &&& twice.screen.pixels == s.screen.pixels
            &&& twice.v[FLAG_REGISTER as int] == flag(
                exists|px: int, py: int| #[trigger] stamp.ink(px, py) && !s.screen.pixels[px][py],
            )
        }),
{
    let draw = Instruction::Display { x, y, n };
    let once = s.step(draw, random)->Ok_0;
    let twice = once.step(draw, again)->Ok_0;
    let stamp = s.stamp(x as int, y as int, n as int);
    assert(twice.screen.pixels =~~= s.screen.pixels);
    if exists|px: int, py: int| #[trigger] stamp.ink(px, py) && !s.screen.pixels[px][py] {
        let (px, py) = choose|px: int, py: int| #[trigger]
            stamp.ink(px, py) && !s.screen.pixels[px][py];
        assert(stamp.ink(px, py) && once.screen.pixels[px][py]);
    }
    if once.screen.collides(stamp) {
        let (px, py) = choose|px: int, py: int| #[trigger]
            stamp.ink(px, py) && once.screen.pixels[px][py];
        assert(stamp.ink(px, py) && !s.screen.pixels[px][py]);
    }
}

/// A subroutine call followed at once by a return resumes at the
/// instruction after the call, with the machine otherwise as it was before
/// the call.
pub proof fn law_call_then_return(s: Machine, nnn: u16, random: u8, again: u8)
    requires
        s.pc <= 0xFFFD,
        nnn < 0x1000,
        s.stack.len() < STACK_CAPACITY,
    ensures
        s.step(Instruction::SubroutineCall { nnn }, random) matches Ok(called) && called.pc == nnn
            && called.step(Instruction::SubroutineReturn, again) == Ok::<Machine, Fault>(
            Machine { pc: (s.pc + 2) as u16, ..s },
        ),
{
    let called = s.step(Instruction::SubroutineCall { nnn }, random)->Ok_0;
    let returned = called.step(Instruction::SubroutineReturn, again)->Ok_0;
    assert(returned =~~= (Machine { pc: (s.pc + 2) as u16, ..s }));
}

/// A return from an empty call stack is a fault: it is never ignored, and
/// the stack does not wrap around.
pub proof fn law_return_from_empty_stack_faults(s: Machine, random: u8)
    requires
        s.stack.len() == 0,
    ensures
        s.step(Instruction::SubroutineReturn, random) is Err,
        s.pc <= 0xFFFD ==> s.step(Instruction::SubroutineReturn, random) == Err::<Machine, Fault>(
            Fault::StackUnderflow,
        ),
{
}

/// A call on a full call stack is a fault.
pub proof fn law_call_on_full_stack_faults(s: Machine, nnn: u16, random: u8)
    requires
        s.stack.len() >= STACK_CAPACITY,
    ensures
        s.step(Instruction::SubroutineCall { nnn }, random) is Err,
        s.pc <= 0xFFFD ==> s.step(Instruction::SubroutineCall { nnn }, random) == Err::<
            Machine,
            Fault,
        >(Fault::StackOverflow),
{
}

/// No instruction takes the call stack beyond its capacity.
pub proof fn law_stack_stays_bounded(s: Machine, instruction: Instruction, random: u8)
    requires
        s.stack_bounded(),
    ensures
        s.step(instruction, random) matches Ok(next) ==> next.stack_bounded(),
{
}

/// The dirty flag is set by every write and every clearing, and taken once:
/// after a write the flag is up; once it is taken it is down, and stays
/// down when taken again; the next write raises it again. Taking the flag
/// leaves the pixels alone.
pub proof fn law_dirty_is_taken_once(screen: Screen, x: int, y: int, val: bool)
    ensures
        screen.set(x, y, val).dirty,
        screen.clear().dirty,
        !screen.set(x, y, val).acknowledge().dirty,
        !screen.clear().acknowledge().dirty,
        !screen.acknowledge().acknowledge().dirty,
        screen.acknowledge().set(x, y, val).dirty,
        screen.acknowledge().clear().dirty,
        screen.acknowledge().pixels == screen.pixels,
{
}

/// While no key is held down, the wait instruction changes nothing: the
/// program counter still points at it, so that it runs again.
pub proof fn law_wait_without_key_repeats(s: Machine, x: usize, random: u8)
    requires
        s.pc <= 0xFFFD,
        !any_pressed(s.keys),
    ensures
        s.step(Instruction::BlockUntilAnyKey { x }, random) == Ok::<Machine, Fault>(s),
{
}

/// Once a key is held down, the wait instruction moves the program counter
/// past itself, once, and puts in VX the lowest key code among the keys
/// held.
pub proof fn law_wait_takes_lowest_key(s: Machine, x: usize, key: int, random: u8)
    requires
        s.pc <= 0xFFFD,
        is_lowest_pressed(s.keys, key),
    ensures
        s.step(Instruction::BlockUntilAnyKey { x }, random) == Ok::<Machine, Fault>(
            Machine { pc: (s.pc + 2) as u16, v: s.v.update(x as int, key as u8), ..s },
        ),
{
}

/// A cycle that fetches the wait instruction while no key is held down
/// leaves the machine as it was, whatever the number of such cycles.
pub proof fn law_cycle_waits_for_key(s: Machine, x: usize, random: u8)
    requires
        s.fetch() matches Ok(word) && decode(word) == Some(Instruction::BlockUntilAnyKey { x }),
        !any_pressed(s.keys),
    ensures
        s.cycle(random) == Ok::<Machine, Fault>(s),
{
    law_wait_without_key_repeats(s, x, random);
}

} // verus!
