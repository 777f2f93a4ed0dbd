//! What each instruction does to the machine, as a function on its model.
//!
//! Every instruction begins by moving the program counter past itself. An
//! instruction either yields the next state or faults; a faulting instruction
//! yields no state.
//!
//! Instructions that set the flag register write the flag first and compute
//! their result afterwards, from the registers as they then stand. So an
//! instruction that names VF as an operand reads the flag it has just
//! written, and one that names VF as its target overwrites the flag with its
//! result.

use vstd::prelude::*;
use crate::fault::{DecodeError, Fault};
use crate::framebuffer::{DISPLAY_HEIGHT_PX, DISPLAY_WIDTH_PX};
use crate::instruction::{decode, Instruction};
use crate::machine::{Machine, FLAG_REGISTER, KEY_COUNT, MEMORY_BYTES, STACK_CAPACITY};
use crate::sprite::Stamp;

verus! {

/// Where the built-in font begins in memory.
pub const FONT_MEMORY_START: usize = 0x050;

/// Bytes that one glyph of the font takes.
pub const FONT_GLYPH_BYTES: usize = 5;

/// An integer reduced to eight bits.
pub open spec fn wrap8(i: int) -> u8 {
    (i % 0x100) as u8
}

/// An integer reduced to sixteen bits.
pub open spec fn wrap16(i: int) -> u16 {
    (i % 0x1_0000) as u16
}

/// A condition as a flag value.
pub open spec fn flag(b: bool) -> u8 {
    if b {
        1
    } else {
        0
    }
}

/// Whether `k` is the lowest key code whose key is held down.
pub open spec fn is_lowest_pressed(keys: Seq<bool>, k: int) -> bool {
    &&& 0 <= k < keys.len()
    &&& keys[k]
    &&& forall|j: int| 0 <= j < k ==> !#[trigger] keys[j]
}

/// Whether any key is held down.
pub open spec fn any_pressed(keys: Seq<bool>) -> bool {
    exists|k: int| 0 <= k < keys.len() && #[trigger] keys[k]
}

/// The lowest key code whose key is held down, where there is one.
pub open spec fn lowest_pressed(keys: Seq<bool>) -> int {
    choose|k: int| is_lowest_pressed(keys, k)
}

impl Machine {
    pub open spec fn with_pc(self, pc: u16) -> Machine {
        Machine { pc, ..self }
    }

    pub open spec fn with_ir(self, ir: u16) -> Machine {
        Machine { ir, ..self }
    }

    /// Register `x` set to `val`.
    pub open spec fn with_v(self, x: int, val: u8) -> Machine {
        Machine { v: self.v.update(x, val), ..self }
    }

    /// The flag register set to `val`.
    pub open spec fn with_flag(self, val: u8) -> Machine {
        self.with_v(FLAG_REGISTER as int, val)
    }

    /// The program counter moved past one more instruction where `cond`
    /// holds. A counter that cannot be moved is a fault.
    pub open spec fn skip_if(self, cond: bool) -> Result<Machine, Fault> {
        if !cond {
            Ok(self)
        } else if self.pc > 0xFFFD {
            Err(Fault::Address)
        } else {
            Ok(self.with_pc((self.pc + 2) as u16))
        }
    }

    /// Subroutine call: the program counter, which already points past the
    /// call, is pushed, and execution continues at `nnn`.
    pub open spec fn call(self, nnn: u16) -> Result<Machine, Fault> {
        if self.stack.len() >= STACK_CAPACITY {
            Err(Fault::StackOverflow)
        } else {
            Ok(Machine { pc: nnn, stack: self.stack.push(self.pc), ..self })
        }
    }

    /// Subroutine return: execution continues at the address popped.
    pub open spec fn ret(self) -> Result<Machine, Fault> {
        if self.stack.len() == 0 {
            Err(Fault::StackUnderflow)
        } else {
            Ok(Machine { pc: self.stack.last(), stack: self.stack.drop_last(), ..self })
        }
    }

    /// VX + VY: the flag is the carry.
    pub open spec fn add_registers(self, x: int, y: int) -> Machine {
        let f = self.with_flag(flag(self.v[x] + self.v[y] > 0xFF));
        f.with_v(x, wrap8(f.v[x] + f.v[y]))
    }

    /// VX - VY: the flag is 1 where VX is strictly greater than VY.
    pub open spec fn sub_registers(self, x: int, y: int) -> Machine {
        let f = self.with_flag(flag(self.v[x] > self.v[y]));
        f.with_v(x, wrap8(f.v[x] - f.v[y]))
    }

    /// VY - VX, stored in VX: the flag is 1 where VY is strictly greater
    /// than VX.
    pub open spec fn sub_registers_reversed(self, x: int, y: int) -> Machine {
        let f = self.with_flag(flag(self.v[y] > self.v[x]));
        f.with_v(x, wrap8(f.v[y] - f.v[x]))
    }

    /// VX shifted right by one: the flag is the bit shifted out.
    pub open spec fn shift_right(self, x: int) -> Machine {
        let f = self.with_flag(self.v[x] & 1);
        f.with_v(x, f.v[x] >> 1)
    }

    /// VX shifted left by one: the flag is the bit shifted out.
    pub open spec fn shift_left(self, x: int) -> Machine {
        let f = self.with_flag((self.v[x] >> 7) & 1);
        f.with_v(x, f.v[x] << 1)
    }

    /// VX added to the index register, with wraparound at sixteen bits. An
    /// overflow sets the flag to 1; without one the flag keeps its value.
    pub open spec fn add_to_index(self, x: int) -> Machine {
        if self.v[x] + self.ir > 0xFFFF {
            let f = self.with_flag(1);
            f.with_ir(wrap16(f.v[x] + f.ir))
        } else {
            self.with_ir((self.v[x] + self.ir) as u16)
        }
    }

    /// The drawing that the sprite instruction asks for: the sprite of `n`
    /// rows at the index register, at (VX, VY). The position wraps around
    /// the grid; the sprite does not, it is clipped at the right and the
    /// bottom edge.
    pub open spec fn stamp(self, x: int, y: int, n: int) -> Stamp {
        let dx = self.v[x] as int % (DISPLAY_WIDTH_PX as int);
        let dy = self.v[y] as int % (DISPLAY_HEIGHT_PX as int);
        Stamp {
            dx,
            dy,
            cols: Stamp::cols_drawn(dx),
            sprite: Seq::new(
                Stamp::rows_drawn(dy, n) as nat,
                |j: int| self.memory[self.ir + j],
            ),
        }
    }

    /// The sprite instruction: the drawing is combined with the grid, and
    /// the flag tells whether a pixel that was on went off. Every sprite row
    /// that is drawn must lie in memory.
    pub open spec fn draw_sprite(self, x: int, y: int, n: int) -> Result<Machine, Fault> {
        let stamp = self.stamp(x, y, n);
        if stamp.sprite.len() > 0 && self.ir + stamp.sprite.len() > MEMORY_BYTES {
            Err(Fault::Address)
        } else {
            Ok(
                Machine {
                    screen: self.screen.draw(stamp),
                    ..self.with_flag(flag(self.screen.collides(stamp)))
                },
            )
        }
    }

    /// Skip where the key whose code is in VX is held down (`want`), or is
    /// not. A value in VX that is no key code is a fault.
    pub open spec fn skip_on_key(self, x: int, want: bool) -> Result<Machine, Fault> {
        if self.v[x] >= KEY_COUNT {
            Err(Fault::Address)
        } else {
            self.skip_if(self.keys[self.v[x] as int] == want)
        }
    }

    /// Wait for a key. While no key is held down the program counter goes
    /// back to the instruction, which so runs again. Once a key is held down
    /// the lowest code among those held is put in VX, and the program
    /// counter stays past the instruction.
    pub open spec fn wait_key(self, x: int) -> Machine {
        if any_pressed(self.keys) {
            self.with_v(x, lowest_pressed(self.keys) as u8)
        } else {
            self.with_pc((self.pc - 2) as u16)
        }
    }

    /// The three decimal digits of VX at I, I+1 and I+2, hundreds first.
    pub open spec fn store_digits(self, x: int) -> Result<Machine, Fault> {
        if self.ir + 2 >= MEMORY_BYTES {
            Err(Fault::Address)
        } else {
            let value = self.v[x];
            let i = self.ir as int;
            Ok(
                Machine {
                    memory: self.memory.update(i, value / 100).update(
                        i + 1,
                        (value % 100) / 10,
                    ).update(i + 2, value % 10),
                    ..self
                },
            )
        }
    }

    /// V0 to VX, both included, stored at I to I+X.
    pub open spec fn store_registers(self, x: int) -> Result<Machine, Fault> {
        if self.ir + x >= MEMORY_BYTES {
            Err(Fault::Address)
        } else {
            Ok(
                Machine {
                    memory: Seq::new(
                        MEMORY_BYTES as nat,
                        |a: int|
                            if self.ir <= a <= self.ir + x {
                                self.v[a - self.ir]
                            } else {
                                self.memory[a]
                            },
                    ),
                    ..self
                },
            )
        }
    }

    /// V0 to VX, both included, loaded from I to I+X.
    pub open spec fn load_registers(self, x: int) -> Result<Machine, Fault> {
        if self.ir + x >= MEMORY_BYTES {
            Err(Fault::Address)
        } else {
            Ok(
                Machine {
                    v: Seq::new(
                        self.v.len(),
                        |i: int|
                            if i <= x {
                                self.memory[self.ir + i]
                            } else {
                                self.v[i]
                            },
                    ),
                    ..self
                },
            )
        }
    }

    /// What an instruction does once the program counter points past it.
    pub open spec fn dispatch(self, instruction: Instruction, random: u8) -> Result<
        Machine,
        Fault,
    > {
        match instruction {
            Instruction::ClearScreen => Ok(Machine { screen: self.screen.clear(), ..self }),
            Instruction::SubroutineReturn => self.ret(),
            Instruction::Jump { nnn } => Ok(self.with_pc(nnn)),
            Instruction::SubroutineCall { nnn } => self.call(nnn),
            Instruction::SkipVxEqNn { x, nn } => self.skip_if(self.v[x as int] == nn),
            Instruction::SkipVxNeqNn { x, nn } => self.skip_if(self.v[x as int] != nn),
            Instruction::SkipVxEqVy { x, y } => self.skip_if(self.v[x as int] == self.v[y as int]),
            Instruction::SkipVxNeqVy { x, y } => self.skip_if(self.v[x as int] != self.v[y as int]),
            Instruction::SetVxNn { x, nn } => Ok(self.with_v(x as int, nn)),
            Instruction::AddNnVx { x, nn } => Ok(
                self.with_v(x as int, wrap8(self.v[x as int] + nn)),
            ),
            Instruction::SetVxVy { x, y } => Ok(self.with_v(x as int, self.v[y as int])),
            Instruction::SetVxOrVy { x, y } => Ok(
                self.with_v(x as int, self.v[x as int] | self.v[y as int]),
            ),
            Instruction::SetVxAndVy { x, y } => Ok(
                self.with_v(x as int, self.v[x as int] & self.v[y as int]),
            ),
            Instruction::SetVxXorVy { x, y } => Ok(
                self.with_v(x as int, self.v[x as int] ^ self.v[y as int]),
            ),
            Instruction::SetVxPlusVy { x, y } => Ok(self.add_registers(x as int, y as int)),
            Instruction::SetVxMinusVy { x, y } => Ok(self.sub_registers(x as int, y as int)),
            Instruction::ShiftVxRight { x } => Ok(self.shift_right(x as int)),
            Instruction::SetVyMinusVx { x, y } => Ok(
                self.sub_registers_reversed(x as int, y as int),
            ),
            Instruction::ShiftVxLeft { x } => Ok(self.shift_left(x as int)),
            Instruction::SetIndexNnn { nnn } => Ok(self.with_ir(nnn)),
            Instruction::JumpV0Nnn { nnn } => Ok(self.with_pc((self.v[0] + nnn) as u16)),
            Instruction::SetVxRandNn { x, nn } => Ok(self.with_v(x as int, random & nn)),
            Instruction::Display { x, y, n } => self.draw_sprite(x as int, y as int, n as int),
            Instruction::SkipIfVxPressed { x } => self.skip_on_key(x as int, true),
            Instruction::SkipIfVxNotPressed { x } => self.skip_on_key(x as int, false),
            Instruction::SetVxDelay { x } => Ok(self.with_v(x as int, self.delay_timer)),
            Instruction::SetDelayVx { x } => Ok(Machine { delay_timer: self.v[x as int], ..self }),
            Instruction::SetSoundVx { x } => Ok(Machine { sound_timer: self.v[x as int], ..self }),
            Instruction::AddVxI { x } => Ok(self.add_to_index(x as int)),
            Instruction::BlockUntilAnyKey { x } => Ok(self.wait_key(x as int)),
            Instruction::SetIFontVx { x } => Ok(
                self.with_ir((FONT_MEMORY_START + self.v[x as int] * FONT_GLYPH_BYTES) as u16),
            ),
            Instruction::StoreVxDigitsI { x } => self.store_digits(x as int),
            Instruction::StoreVxI { x } => self.store_registers(x as int),
            Instruction::StoreIVx { x } => self.load_registers(x as int),
        }
    }

    /// One instruction applied to the machine: the program counter moves
    /// past the instruction, then the instruction acts. A program counter
    /// that cannot be moved is a fault.
    pub open spec fn step(self, instruction: Instruction, random: u8) -> Result<Machine, Fault> {
        if self.pc > 0xFFFD {
            Err(Fault::Address)
        } else {
            self.with_pc((self.pc + 2) as u16).dispatch(instruction, random)
        }
    }

    /// The instruction word at the program counter: two bytes, the high
    /// byte first. Both must lie in memory.
    pub open spec fn fetch(self) -> Result<u16, Fault> {
        if self.pc + 1 >= MEMORY_BYTES {
            Err(Fault::Address)
        } else {
            Ok((self.memory[self.pc as int] * 0x100 + self.memory[self.pc + 1]) as u16)
        }
    }

    /// One cycle: fetch, decode, execute.
    pub open spec fn cycle(self, random: u8) -> Result<Machine, Fault> {
        match self.fetch() {
            Err(fault) => Err(fault),
            Ok(word) => match decode(word) {
                None => Err(Fault::Decode(DecodeError { word })),
                Some(instruction) => self.step(instruction, random),
            },
        }
    }
}

/// Whether a machine that went from `before` to `after` and reported
/// `reported` did what `expected` asks: on success it reached the expected
/// state, on a fault it reported that fault and changed nothing.
pub open spec fn follows(
    before: Machine,
    expected: Result<Machine, Fault>,
    after: Machine,
    reported: Result<(), Fault>,
) -> bool {
    match expected {
        Ok(next) => reported is Ok && after == next,
        Err(fault) => reported == Err::<(), Fault>(fault) && after == before,
    }
}

} // verus!
