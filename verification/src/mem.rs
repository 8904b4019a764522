//! The 4096-byte address space.
//!
//! Addresses `0x000..0x050` hold the immutable font glyph table (16 glyphs of
//! 5 bytes each) once `load_font` has run; `0x200..0xFFF` is program and work
//! space, filled by `load_rom` and mutated thereafter only by the store, load
//! and BCD instruction handlers.

use vstd::prelude::*;

use crate::cpu::Fault;

verus! {

pub const RAM_SIZE: usize = 4096;

pub const ROM_START_ADDRESS: usize = 0x200;

pub const ROM_MAX_SIZE: usize = RAM_SIZE - ROM_START_ADDRESS;

pub const FONT_MAX_SIZE: usize = 80;

/// The 16 font glyphs, 5 bytes per hexadecimal digit, drawn 4 pixels wide.
pub const FONTS: [u8; 80] = [
    0xF0, 0x90, 0x90, 0x90, 0xF0, // 0
    0x20, 0x60, 0x20, 0x20, 0x70, // 1
    0xF0, 0x10, 0xF0, 0x80, 0xF0, // 2
    0xF0, 0x10, 0xF0, 0x10, 0xF0, // 3
    0x90, 0x90, 0xF0, 0x10, 0x10, // 4
    0xF0, 0x80, 0xF0, 0x10, 0xF0, // 5
    0xF0, 0x80, 0xF0, 0x90, 0xF0, // 6
    0xF0, 0x10, 0x20, 0x40, 0x40, // 7
    0xF0, 0x90, 0xF0, 0x90, 0xF0, // 8
    0xF0, 0x90, 0xF0, 0x10, 0xF0, // 9
    0xF0, 0x90, 0xF0, 0x90, 0x90, // A
    0xE0, 0x90, 0xE0, 0x90, 0xE0, // B
    0xF0, 0x80, 0x80, 0x80, 0xF0, // C
    0xE0, 0x90, 0x90, 0x90, 0xE0, // D
    0xF0, 0x80, 0xF0, 0x80, 0xF0, // E
    0xF0, 0x80, 0xF0, 0x80, 0x80, // F
];

#[derive(Debug)]
pub struct Memory {
    pub ram: [u8; RAM_SIZE],
}

impl Default for Memory {
    /// All 4096 bytes zero; no font loaded yet.
    fn default() -> (r: Self)
        ensures
            forall|a: int| 0 <= a < RAM_SIZE ==> r.ram@[a] == 0u8,
    {
        Self { ram: [0u8; 4096] }
    }
}

impl Memory {
    /// A fresh memory: everything zero except the font table at `0x000..0x050`.
    pub fn new() -> (r: Self)
        ensures
            forall|a: int| 0 <= a < FONT_MAX_SIZE ==> r.ram@[a] == FONTS@[a],
            forall|a: int| FONT_MAX_SIZE <= a < RAM_SIZE ==> r.ram@[a] == 0u8,
    {
        let mut new_memory = Self::default();
        new_memory.load_font();
        new_memory
    }

    /// Copies the 80-byte glyph table into `ram[0..80]`; the rest of memory is
    /// untouched, so a second invocation writes the same bytes again.
    pub fn load_font(&mut self)
        ensures
            forall|a: int| 0 <= a < FONT_MAX_SIZE ==> final(self).ram@[a] == FONTS@[a],
            forall|a: int|
                FONT_MAX_SIZE <= a < RAM_SIZE ==> final(self).ram@[a] == old(self).ram@[a],
    {
        let mut k: usize = 0;
        while k < FONT_MAX_SIZE
            invariant
                k <= FONT_MAX_SIZE,
                forall|a: int| 0 <= a < k ==> self.ram@[a] == FONTS@[a],
                forall|a: int| k <= a < RAM_SIZE ==> self.ram@[a] == old(self).ram@[a],
            decreases FONT_MAX_SIZE - k,
        {
            self.ram[k] = FONTS[k];
            k = k + 1;
        }
    }

    /// Copies a ROM image into RAM starting at `0x200`. Fails with
    /// `RomTooLarge` when the image does not fit; memory is then unchanged.
    /// Memory outside `0x200..0x200+len` keeps its prior contents.
    pub fn load_rom(&mut self, rom_data: &[u8]) -> (r: Result<(), Fault>)
        ensures
            r is Ok <==> rom_data@.len() <= ROM_MAX_SIZE,
            r is Err ==> r == Err::<(), Fault>(Fault::RomTooLarge) && final(self).ram@ == old(
                self,
            ).ram@,
            r is Ok ==> forall|k: int|
                0 <= k < rom_data@.len() ==> final(self).ram@[ROM_START_ADDRESS + k]
                    == rom_data@[k],
            r is Ok ==> forall|a: int|
                (0 <= a < ROM_START_ADDRESS || ROM_START_ADDRESS + rom_data@.len() <= a
                    < RAM_SIZE) ==> final(self).ram@[a] == old(self).ram@[a],
    {
        if rom_data.len() > ROM_MAX_SIZE {
            return Err(Fault::RomTooLarge);
        }
        let len = rom_data.len();
        let mut k: usize = 0;
        while k < len
            invariant
                k <= len,
                len == rom_data@.len() <= ROM_MAX_SIZE,
                forall|j: int|
                    0 <= j < k ==> self.ram@[ROM_START_ADDRESS + j] == rom_data@[j],
                forall|a: int|
                    (0 <= a < ROM_START_ADDRESS || ROM_START_ADDRESS + k <= a < RAM_SIZE)
                        ==> self.ram@[a] == old(self).ram@[a],
            decreases len - k,
        {
            self.ram[ROM_START_ADDRESS + k] = rom_data[k];
            k = k + 1;
        }
        Ok(())
    }
}

} // verus!
