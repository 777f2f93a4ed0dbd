//! Placing a program image and the built-in font in memory.
//!
//! Reading the image from its source is the caller's part. The caller hands
//! over the bytes it read and the size that the source reported, and this
//! module decides whether the image can be loaded.

use vstd::prelude::*;
use crate::fault::LoadFault;
use crate::machine::{Memory, MEMORY_BYTES, PROGRAM_START};
use crate::semantics::FONT_MEMORY_START;

verus! {

/// Bytes that the font table holds: 16 glyphs of 5 bytes.
pub const FONT_TABLE_BYTES: usize = 80;

/// Bytes between the load address and the end of memory.
pub const PROGRAM_CAPACITY: usize = 3584;

/// The glyphs of the hexadecimal digits, 5 rows each, 4 pixels wide in the
/// high nibble.
pub const FONT_BYTES: [u8; 80] = [
    0xF0, 0x90, 0x90, 0x90, 0xF0,  // 0
    0x20, 0x60, 0x20, 0x20, 0x70,  // 1
    0xF0, 0x10, 0xF0, 0x80, 0xF0,  // 2
    0xF0, 0x10, 0xF0, 0x10, 0xF0,  // 3
    0x90, 0x90, 0xF0, 0x10, 0x10,  // 4
    0xF0, 0x80, 0xF0, 0x10, 0xF0,  // 5
    0xF0, 0x80, 0xF0, 0x90, 0xF0,  // 6
    0xF0, 0x10, 0x20, 0x40, 0x40,  // 7
    0xF0, 0x90, 0xF0, 0x90, 0xF0,  // 8
    0xF0, 0x90, 0xF0, 0x10, 0xF0,  // 9
    0xF0, 0x90, 0xF0, 0x90, 0x90,  // A
    0xE0, 0x90, 0xE0, 0x90, 0xE0,  // B
    0xF0, 0x80, 0x80, 0x80, 0xF0,  // C
    0xE0, 0x90, 0x90, 0x90, 0xE0,  // D
    0xF0, 0x80, 0xF0, 0x80, 0xF0,  // E
    0xF0, 0x80, 0xF0, 0x80, 0x80,  // F
];

/// Why an image of `image_len` bytes, from a source that reported
/// `source_len` bytes, cannot be loaded; `None` where it can.
///
/// An image or a source beyond the capacity is too large. Otherwise the two
/// lengths must agree.
pub open spec fn load_fault(image_len: int, source_len: int) -> Option<LoadFault> {
    if image_len > PROGRAM_CAPACITY || source_len > PROGRAM_CAPACITY {
        Some(LoadFault::ImageTooLarge)
    } else if image_len != source_len {
        Some(LoadFault::SizeMismatch)
    } else {
        None
    }
}

/// Memory after a load: the image from the load address on, the font table
/// at its place, every other byte as before.
pub open spec fn loaded(memory: Seq<u8>, image: Seq<u8>) -> Seq<u8> {
    Seq::new(
        MEMORY_BYTES as nat,
        |a: int|
            if PROGRAM_START <= a < PROGRAM_START + image.len() {
                image[a - PROGRAM_START]
            } else if FONT_MEMORY_START <= a < FONT_MEMORY_START + FONT_TABLE_BYTES {
                FONT_BYTES@[a - FONT_MEMORY_START]
            } else {
                memory[a]
            },
    )
}

/// Loads a program image into memory, and the font table with it.
///
/// `image` holds the bytes that were read from the source, `source_len` the
/// size that the source reported. Where the image cannot be loaded the
/// reason is returned and memory is unchanged.
pub fn load_rom(memory: &mut Memory, image: &[u8], source_len: u64) -> (r: Result<(), LoadFault>)
    ensures
        match load_fault(image@.len() as int, source_len as int) {
            Some(fault) => r == Err::<(), LoadFault>(fault) && final(memory)@ == old(memory)@,
            None => r is Ok && final(memory)@ == loaded(old(memory)@, image@),
        },
{
    let amount_read: usize = image.len();
    if amount_read > PROGRAM_CAPACITY || source_len > PROGRAM_CAPACITY as u64 {
        return Err(LoadFault::ImageTooLarge);
    }
    if amount_read as u64 != source_len {
        return Err(LoadFault::SizeMismatch);
    }
    // Rom memory starts at 0x200
    let mut i: usize = 0;
    while i < amount_read
        invariant
            i <= amount_read,
            amount_read == image@.len(),
            amount_read <= PROGRAM_CAPACITY,
            forall|a: int|
                0 <= a < MEMORY_BYTES ==> #[trigger] memory@[a] == if PROGRAM_START <= a
                    < PROGRAM_START + i {
                    image@[a - PROGRAM_START]
                } else {
                    old(memory)@[a]
                },
        decreases amount_read - i,
    {
        memory[PROGRAM_START + i] = image[i];
        i += 1;
    }

    // Load font into 0x050-0x09F
    let mut g: usize = 0;
    while g < FONT_TABLE_BYTES
        invariant
            g <= FONT_TABLE_BYTES,
            amount_read == image@.len(),
            amount_read <= PROGRAM_CAPACITY,
            forall|a: int|
                0 <= a < MEMORY_BYTES ==> #[trigger] memory@[a] == if PROGRAM_START <= a
                    < PROGRAM_START + amount_read {
                    image@[a - PROGRAM_START]
                } else if FONT_MEMORY_START <= a < FONT_MEMORY_START + g {
                    FONT_BYTES@[a - FONT_MEMORY_START]
                } else {
                    old(memory)@[a]
                },
        decreases FONT_TABLE_BYTES - g,
    {
        memory[FONT_MEMORY_START + g] = FONT_BYTES[g];
        g += 1;
    }
    Ok(())
}

} // verus!
