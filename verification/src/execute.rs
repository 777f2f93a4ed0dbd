//! The execution engine: one decoded instruction applied to the machine.
//!
//! Every function here checks what can fault before it changes anything, so
//! that a faulting instruction leaves the machine as it found it.

use vstd::prelude::*;
use crate::fault::Fault;
use crate::framebuffer::{Screen, DISPLAY_HEIGHT_PX, DISPLAY_WIDTH_PX};
use crate::instruction::Instruction;
use crate::machine::{Machine, KEY_COUNT, MEMORY_BYTES, STACK_CAPACITY, VM};
use crate::semantics::{flag, follows, is_lowest_pressed, FONT_MEMORY_START};
use crate::sprite::{Stamp, SPRITE_WIDTH};

verus! {

/// Whether the drawing has reached the pixel at `(x, y)` once `j` whole rows
/// and `i` pixels of the next row are done.
spec fn reached(stamp: Stamp, j: int, i: int, x: int, y: int) -> bool {
    stamp.covers(x, y) && (y - stamp.dy < j || (y - stamp.dy == j && x - stamp.dx < i))
}

/// Whether the drawing has, so far, turned a pixel off.
spec fn collided(before: Screen, stamp: Stamp, j: int, i: int) -> bool {
    exists|x: int, y: int| #[trigger]
        reached(stamp, j, i, x, y) && stamp.ink(x, y) && before.pixels[x][y]
}

/// The grid while a sprite is being drawn: the pixels reached are drawn, the
/// others are as before.
spec fn partly_drawn(now: Screen, before: Screen, stamp: Stamp, j: int, i: int) -> bool {
    &&& now.wf()
    &&& now.dirty == (before.dirty || j > 0 || i > 0)
    &&& forall|x: int, y: int|
        Screen::in_bounds(x, y) ==> #[trigger] now.pixels[x][y] == (before.pixels[x][y] != (
        reached(stamp, j, i, x, y) && stamp.ink(x, y)))
}

/// Two stages of a drawing that have reached the same pixels have collided
/// alike.
proof fn lemma_collided_same(before: Screen, stamp: Stamp, j0: int, i0: int, j1: int, i1: int)
    requires
        forall|x: int, y: int|
            #![trigger reached(stamp, j0, i0, x, y)]
            #![trigger reached(stamp, j1, i1, x, y)]
            reached(stamp, j0, i0, x, y) == reached(stamp, j1, i1, x, y),
    ensures
        collided(before, stamp, j0, i0) == collided(before, stamp, j1, i1),
{
    if collided(before, stamp, j0, i0) {
        let (x, y) = choose|x: int, y: int| #[trigger]
            reached(stamp, j0, i0, x, y) && stamp.ink(x, y) && before.pixels[x][y];
        assert(reached(stamp, j1, i1, x, y));
    }
    if collided(before, stamp, j1, i1) {
        let (x, y) = choose|x: int, y: int| #[trigger]
            reached(stamp, j1, i1, x, y) && stamp.ink(x, y) && before.pixels[x][y];
        assert(reached(stamp, j0, i0, x, y));
    }
}

/// Reaching one more pixel adds a collision exactly where the sprite sets
/// that pixel and it was on.
proof fn lemma_collided_step(before: Screen, stamp: Stamp, j: int, i: int, px: int, py: int)
    requires
        forall|x: int, y: int|
            #![trigger reached(stamp, j, i, x, y)]
            #![trigger reached(stamp, j, i + 1, x, y)]
            reached(stamp, j, i + 1, x, y) == (reached(stamp, j, i, x, y) || (x == px && y
                == py)),
    ensures
        collided(before, stamp, j, i + 1) == (collided(before, stamp, j, i) || (stamp.ink(px, py)
            && before.pixels[px][py])),
{
    if collided(before, stamp, j, i) {
        let (x, y) = choose|x: int, y: int| #[trigger]
            reached(stamp, j, i, x, y) && stamp.ink(x, y) && before.pixels[x][y];
        assert(reached(stamp, j, i + 1, x, y));
    }
    if stamp.ink(px, py) && before.pixels[px][py] {
        assert(reached(stamp, j, i + 1, px, py));
    }
    if collided(before, stamp, j, i + 1) {
        let (x, y) = choose|x: int, y: int| #[trigger]
            reached(stamp, j, i + 1, x, y) && stamp.ink(x, y) && before.pixels[x][y];
        if !(x == px && y == py) {
            assert(reached(stamp, j, i, x, y));
        }
    }
}

/// A drawing that has reached every pixel it covers has collided exactly
/// where the whole drawing collides.
proof fn lemma_collided_done(before: Screen, stamp: Stamp)
    ensures
        collided(before, stamp, stamp.sprite.len() as int, 0) == before.collides(stamp),
{
    let rows = stamp.sprite.len() as int;
    if collided(before, stamp, rows, 0) {
        let (x, y) = choose|x: int, y: int| #[trigger]
            reached(stamp, rows, 0, x, y) && stamp.ink(x, y) && before.pixels[x][y];
        assert(stamp.ink(x, y) && before.pixels[x][y]);
    }
    if before.collides(stamp) {
        let (x, y) = choose|x: int, y: int| #[trigger] stamp.ink(x, y) && before.pixels[x][y];
        assert(reached(stamp, rows, 0, x, y));
    }
}

impl VM {
    /// Moves the program counter past one more instruction where `cond`
    /// holds.
    fn skip_if(&mut self, cond: bool) -> (r: Result<(), Fault>)
        ensures
            follows(old(self)@, old(self)@.skip_if(cond), final(self)@, r),
    {
        if !cond {
            return Ok(());
        }
        if self.pc > 0xFFFD {
            return Err(Fault::Address);
        }
        self.pc = self.pc + 2;
        Ok(())
    }

    /// Skips where the key whose code is in VX is pressed (`want`), or is
    /// not.
    fn skip_on_key(&mut self, x: usize, want: bool) -> (r: Result<(), Fault>)
        requires
            x < 16,
        ensures
            follows(old(self)@, old(self)@.skip_on_key(x as int, want), final(self)@, r),
    {
        let key = self.v[x] as usize;
        if key >= KEY_COUNT {
            return Err(Fault::Address);
        }
        let pressed = self.keys_pressed[key];
        self.skip_if(pressed == want)
    }

    /// Pushes the return address and jumps to `nnn`.
    fn call(&mut self, nnn: u16) -> (r: Result<(), Fault>)
        ensures
            follows(old(self)@, old(self)@.call(nnn), final(self)@, r),
    {
        if self.stack.len() >= STACK_CAPACITY {
            return Err(Fault::StackOverflow);
        }
        self.stack.push_back(self.pc);
        self.pc = nnn;  // Jump to NNN
        Ok(())
    }

    /// Pops a return address and jumps to it.
    fn ret(&mut self) -> (r: Result<(), Fault>)
        ensures
            follows(old(self)@, old(self)@.ret(), final(self)@, r),
    {
        match self.stack.pop_back() {
            None => Err(Fault::StackUnderflow),
            Some(pc) => {
                self.pc = pc;
                Ok(())
            },
        }
    }

    /// Sets register `x`.
    fn set_v(&mut self, x: usize, val: u8)
        requires
            x < 16,
        ensures
            final(self)@ == old(self)@.with_v(x as int, val),
    {
        self.v[x] = val;
    }

    /// VX + VY, with the carry in VF.
    fn add_registers(&mut self, x: usize, y: usize)
        requires
            x < 16,
            y < 16,
        ensures
            final(self)@ == old(self)@.add_registers(x as int, y as int),
    {
        self.v[0xF] = if self.v[x].checked_add(self.v[y]).is_none() {
            1
        } else {
            0
        };
        self.v[x] = self.v[x].wrapping_add(self.v[y]);
    }

    /// VX - VY, with "no borrow" in VF.
    fn sub_registers(&mut self, x: usize, y: usize)
        requires
            x < 16,
            y < 16,
        ensures
            final(self)@ == old(self)@.sub_registers(x as int, y as int),
    {
        self.v[0xF] = if self.v[x] > self.v[y] {
            1
        } else {
            0
        };
        self.v[x] = self.v[x].wrapping_sub(self.v[y]);
    }

    /// VY - VX, stored in VX, with "no borrow" in VF.
    fn sub_registers_reversed(&mut self, x: usize, y: usize)
        requires
            x < 16,
            y < 16,
        ensures
            final(self)@ == old(self)@.sub_registers_reversed(x as int, y as int),
    {
        self.v[0xF] = if self.v[y] > self.v[x] {
            1
        } else {
            0
        };
        self.v[x] = self.v[y].wrapping_sub(self.v[x]);
    }

    /// VX shifted right by one, with the bit shifted out in VF.
    fn shift_right(&mut self, x: usize)
        requires
            x < 16,
        ensures
            final(self)@ == old(self)@.shift_right(x as int),
    {
        self.v[0xF] = self.v[x] & 0x1;
        self.v[x] = self.v[x] >> 1;
    }

    /// VX shifted left by one, with the bit shifted out in VF.
    fn shift_left(&mut self, x: usize)
        requires
            x < 16,
        ensures
            final(self)@ == old(self)@.shift_left(x as int),
    {
        self.v[0xF] = (self.v[x] >> 7) & 0x1;
        self.v[x] = self.v[x] << 1;
    }

    /// Adds VX to the index register.
    fn add_to_index(&mut self, x: usize)
        requires
            x < 16,
        ensures
            final(self)@ == old(self)@.add_to_index(x as int),
    {
        match (self.v[x] as u16).checked_add(self.ir) {
            Some(sum) => self.ir = sum,
            None => {
                // Set overflow register
                self.v[0xF] = 1;
                self.ir = (self.v[x] as u16).wrapping_add(self.ir);
            },
        }
    }

    /// Draws the `n`-row sprite at the index register at (VX, VY) and sets
    /// VF to the collision.
    fn draw_sprite(&mut self, x: usize, y: usize, n: u8) -> (r: Result<(), Fault>)
        requires
            x < 16,
            y < 16,
        ensures
            follows(
                old(self)@,
                old(self)@.draw_sprite(x as int, y as int, n as int),
                final(self)@,
                r,
            ),
    {
        let dx: usize = self.v[x] as usize % DISPLAY_WIDTH_PX;
        let dy: usize = self.v[y] as usize % DISPLAY_HEIGHT_PX;
        let rows: usize = if (n as usize) <= DISPLAY_HEIGHT_PX - dy {
            n as usize
        } else {
            DISPLAY_HEIGHT_PX - dy
        };
        let cols: usize = if SPRITE_WIDTH <= DISPLAY_WIDTH_PX - dx {
            SPRITE_WIDTH
        } else {
            DISPLAY_WIDTH_PX - dx
        };
        let base: usize = self.ir as usize;
        if rows > 0 && base + rows > MEMORY_BYTES {
            return Err(Fault::Address);
        }
        let ghost before = self@;
        let ghost stamp = Stamp {
            dx: dx as int,
            dy: dy as int,
            cols: cols as int,
            sprite: Seq::new(rows as nat, |j: int| before.memory[base + j]),
        };
        proof {
            self.lemma_view_wf();
        }

        // Reset collision flag
        self.v[0xF] = 0;

        // j is the y value: one sprite byte per row
        let mut j: usize = 0;
        while j < rows
            invariant
                j <= rows,
                rows == stamp.sprite.len(),
                cols == stamp.cols,
                dx == stamp.dx,
                dy == stamp.dy,
                0 < cols <= SPRITE_WIDTH,
                before.wf(),
                dx + cols <= DISPLAY_WIDTH_PX,
                dy + rows <= DISPLAY_HEIGHT_PX,
                rows > 0 ==> base + rows <= MEMORY_BYTES,
                stamp.sprite =~= Seq::new(rows as nat, |j: int| before.memory[base + j]),
                self@ =~~= (Machine {
                    screen: self.display@,
                    v: before.v.update(0xF, flag(collided(before.screen, stamp, j as int, 0))),
                    ..before
                }),
                partly_drawn(self.display@, before.screen, stamp, j as int, 0),
            decreases rows - j,
        {
            let sprite_row: u8 = self.memory[base + j];

            // i is the x value we use to iterate over bits
            let mut i: usize = 0;
            while i < cols
                invariant
                    i <= cols,
                    j < rows,
                    rows == stamp.sprite.len(),
                    cols == stamp.cols,
                    dx == stamp.dx,
                    dy == stamp.dy,
                    cols <= SPRITE_WIDTH,
                    before.wf(),
                    dx + cols <= DISPLAY_WIDTH_PX,
                    dy + rows <= DISPLAY_HEIGHT_PX,
                    sprite_row == stamp.sprite[j as int],
                    self@ =~~= (Machine {
                        screen: self.display@,
                        v: before.v.update(
                            0xF,
                            flag(collided(before.screen, stamp, j as int, i as int)),
                        ),
                        ..before
                    }),
                    partly_drawn(self.display@, before.screen, stamp, j as int, i as int),
                decreases cols - i,
            {
                // Bit shift to get the current row bit
                let bit: bool = ((sprite_row >> (7 - i as u8)) & 0b1) == 1;
                let px: usize = dx + i;
                let py: usize = dy + j;
                let pixel = self.display.get(px, py);
                proof {
                    lemma_collided_step(
                        before.screen,
                        stamp,
                        j as int,
                        i as int,
                        px as int,
                        py as int,
                    );
                }
                if pixel && bit {
                    // Set collision register
                    self.v[0xF] = 1;
                }

                // XOR with current bit
                self.display.set(px, py, pixel ^ bit);
                i += 1;
            }
            proof {
                lemma_collided_same(before.screen, stamp, j as int, cols as int, j + 1, 0);
            }
            j += 1;
        }
        proof {
            lemma_collided_done(before.screen, stamp);
            assert(self.display@ =~~= before.screen.draw(stamp));
        }
        Ok(())
    }

    /// Waits for a key: puts the lowest key code pressed in VX, or where no
    /// key is pressed moves the program counter back to this instruction.
    fn wait_key(&mut self, x: usize)
        requires
            x < 16,
            old(self).pc >= 2,
        ensures
            final(self)@ == old(self)@.wait_key(x as int),
    {
        let mut k: usize = 0;
        while k < KEY_COUNT
            invariant
                k <= KEY_COUNT,
                x < 16,
                self@ == old(self)@,
                forall|j: int| 0 <= j < k ==> !#[trigger] self.keys_pressed@[j],
            decreases KEY_COUNT - k,
        {
            if self.keys_pressed[k] {
                assert(is_lowest_pressed(self@.keys, k as int));
                self.v[x] = k as u8;
                return;
            }
            k += 1;
        }
        // Decrement program counter to repeat this
        // instruction in case a key isn't pressed
        self.pc = self.pc - 2;
    }

    /// Stores the three decimal digits of VX at I, I+1, I+2.
    fn store_digits(&mut self, x: usize) -> (r: Result<(), Fault>)
        requires
            x < 16,
        ensures
            follows(old(self)@, old(self)@.store_digits(x as int), final(self)@, r),
    {
        let base: usize = self.ir as usize;
        if base + 2 >= MEMORY_BYTES {
            return Err(Fault::Address);
        }
        let value = self.v[x];
        self.memory[base] = value / 100;
        self.memory[base + 1] = (value % 100) / 10;
        self.memory[base + 2] = value % 10;
        Ok(())
    }

    /// Stores V0 to VX at I to I+X.
    fn store_registers(&mut self, x: usize) -> (r: Result<(), Fault>)
        requires
            x < 16,
        ensures
            follows(old(self)@, old(self)@.store_registers(x as int), final(self)@, r),
    {
        let base: usize = self.ir as usize;
        if base + x >= MEMORY_BYTES {
            return Err(Fault::Address);
        }
        let ghost before = self@;
        let mut i: usize = 0;
        while i <= x
            invariant
                i <= x + 1,
                x < 16,
                base == before.ir,
                base + x < MEMORY_BYTES,
                self@ =~~= (Machine { memory: self.memory@, ..before }),
                forall|a: int|
                    0 <= a < MEMORY_BYTES ==> #[trigger] self.memory@[a] == if base <= a < base
                        + i {
                        before.v[a - base]
                    } else {
                        before.memory[a]
                    },
            decreases x + 1 - i,
        {
            self.memory[base + i] = self.v[i];
            i += 1;
        }
        assert(self@ =~~= old(self)@.store_registers(x as int)->Ok_0);
        Ok(())
    }

    /// Loads V0 to VX from I to I+X.
    fn load_registers(&mut self, x: usize) -> (r: Result<(), Fault>)
        requires
            x < 16,
        ensures
            follows(old(self)@, old(self)@.load_registers(x as int), final(self)@, r),
    {
        let base: usize = self.ir as usize;
        if base + x >= MEMORY_BYTES {
            return Err(Fault::Address);
        }
        let ghost before = self@;
        let mut i: usize = 0;
        while i <= x
            invariant
                i <= x + 1,
                x < 16,
                base == before.ir,
                base + x < MEMORY_BYTES,
                self@ =~~= (Machine { v: self.v@, ..before }),
                forall|r: int|
                    0 <= r < 16 ==> #[trigger] self.v@[r] == if r < i {
                        before.memory[base + r]
                    } else {
                        before.v[r]
                    },
            decreases x + 1 - i,
        {
            self.v[i] = self.memory[base + i];
            i += 1;
        }
        assert(self@ =~~= old(self)@.load_registers(x as int)->Ok_0);
        Ok(())
    }

    /// Applies an instruction to a machine whose program counter already
    /// points past it.
    fn dispatch(&mut self, instruction: Instruction, random: u8) -> (r: Result<(), Fault>)
        requires
            instruction.wf(),
            old(self).pc >= 2,
        ensures
            follows(old(self)@, old(self)@.dispatch(instruction, random), final(self)@, r),
    {
        match instruction {
            Instruction::ClearScreen => {
                self.display.clear();
                Ok(())
            },
            Instruction::SubroutineReturn => self.ret(),
            Instruction::Jump { nnn } => {
                self.pc = nnn;
                Ok(())
            },
            Instruction::SubroutineCall { nnn } => self.call(nnn),
            Instruction::SkipVxEqNn { x, nn } => self.skip_if(self.v[x] == nn),
            Instruction::SkipVxNeqNn { x, nn } => self.skip_if(self.v[x] != nn),
            Instruction::SkipVxEqVy { x, y } => self.skip_if(self.v[x] == self.v[y]),
            Instruction::SkipVxNeqVy { x, y } => self.skip_if(self.v[x] != self.v[y]),
            Instruction::SetVxNn { x, nn } => {
                self.set_v(x, nn);
                Ok(())
            },
            Instruction::AddNnVx { x, nn } => {
                self.set_v(x, self.v[x].wrapping_add(nn));
                Ok(())
            },
            Instruction::SetVxVy { x, y } => {
                self.set_v(x, self.v[y]);
                Ok(())
            },
            Instruction::SetVxOrVy { x, y } => {
                self.set_v(x, self.v[x] | self.v[y]);
                Ok(())
            },
            Instruction::SetVxAndVy { x, y } => {
                self.set_v(x, self.v[x] & self.v[y]);
                Ok(())
            },
            Instruction::SetVxXorVy { x, y } => {
                self.set_v(x, self.v[x] ^ self.v[y]);
                Ok(())
            },
            Instruction::SetVxPlusVy { x, y } => {
                self.add_registers(x, y);
                Ok(())
            },
            Instruction::SetVxMinusVy { x, y } => {
                self.sub_registers(x, y);
                Ok(())
            },
            Instruction::ShiftVxRight { x } => {
                self.shift_right(x);
                Ok(())
            },
            Instruction::SetVyMinusVx { x, y } => {
                self.sub_registers_reversed(x, y);
                Ok(())
            },
            Instruction::ShiftVxLeft { x } => {
                self.shift_left(x);
                Ok(())
            },
            Instruction::SetIndexNnn { nnn } => {
                self.ir = nnn;
                Ok(())
            },
            Instruction::JumpV0Nnn { nnn } => {
                self.pc = self.v[0] as u16 + nnn;
                Ok(())
            },
            Instruction::SetVxRandNn { x, nn } => {
                self.set_v(x, random & nn);
                Ok(())
            },
            Instruction::Display { x, y, n } => self.draw_sprite(x, y, n),
            Instruction::SkipIfVxPressed { x } => self.skip_on_key(x, true),
            Instruction::SkipIfVxNotPressed { x } => self.skip_on_key(x, false),
            Instruction::SetVxDelay { x } => {
                self.set_v(x, self.delay_timer);
                Ok(())
            },
            Instruction::SetDelayVx { x } => {
                self.delay_timer = self.v[x];
                Ok(())
            },
            Instruction::SetSoundVx { x } => {
                self.sound_timer = self.v[x];
                Ok(())
            },
            Instruction::AddVxI { x } => {
                self.add_to_index(x);
                Ok(())
            },
            Instruction::BlockUntilAnyKey { x } => {
                self.wait_key(x);
                Ok(())
            },
            Instruction::SetIFontVx { x } => {
                // Fonts are 5 bytes wide
                self.ir = FONT_MEMORY_START as u16 + self.v[x] as u16 * 5;
                Ok(())
            },
            Instruction::StoreVxDigitsI { x } => self.store_digits(x),
            Instruction::StoreVxI { x } => self.store_registers(x),
            Instruction::StoreIVx { x } => self.load_registers(x),
        }
    }

    /// Executes one decoded instruction.
    ///
    /// The program counter is moved past the instruction before it acts, so
    /// that a skip adds a further 2 and a call pushes the address of the
    /// instruction after it. `random` is the byte that the random
    /// instruction draws on; no other instruction reads it.
    ///
    /// On success the machine is in the state that the instruction leads
    /// to. On a fault that fault is returned and the machine is unchanged. A
    /// call stack within its capacity stays within it.
    pub fn execute(&mut self, instruction: Instruction, random: u8) -> (r: Result<(), Fault>)
        requires
            instruction.wf(),
        ensures
            follows(old(self)@, old(self)@.step(instruction, random), final(self)@, r),
            old(self)@.stack_bounded() ==> final(self)@.stack_bounded(),
    {
        let pc = self.pc;
        if pc > 0xFFFD {
            return Err(Fault::Address);
        }
        // Increment program counter here instead of in each instruction
        // so we don't forget.
        self.pc = pc + 2;
        let r = self.dispatch(instruction, random);
        if r.is_err() {
            self.pc = pc;
        }
        r
    }

    /// Reads the instruction word at the program counter: two bytes, the
    /// high byte first.
    pub fn fetch(&self) -> (r: Result<u16, Fault>)
        ensures
            r == self@.fetch(),
    {
        let pc: usize = self.pc as usize;
        if pc + 1 >= MEMORY_BYTES {
            return Err(Fault::Address);
        }
        let high: u8 = self.memory[pc];
        let low: u8 = self.memory[pc + 1];
        assert(((high as u16) << 8 | low as u16) == high * 0x100 + low) by (bit_vector);
        // Instructions are two bytes
        Ok((high as u16) << 8 | low as u16)
    }
}

} // verus!
