use vstd::prelude::*;

use crate::consts::{hi_byte, le16, lo_byte, TARGET_BANK};
use crate::rom::{cpu_fits, file_offset, write_at, Rom};

verus! {

pub const START_GOLD_CPU: u16 = 0xDE8D;

/// Write the starting gold (little-endian) at bank 15:$DE8D. Returns the file offset.
pub fn set_starting_gold(rom: &mut Rom, amount: u16) -> (r: usize)
    requires
        cpu_fits(old(rom)@, TARGET_BANK as int, START_GOLD_CPU as int, 2),
    ensures
        r == file_offset(old(rom)@, TARGET_BANK as int, START_GOLD_CPU as int),
        final(rom)@ == write_at(old(rom)@, r as int, le16(amount)),
{
    let off = rom.cpu_to_file_offset(TARGET_BANK, START_GOLD_CPU);
    let lo = lo_byte(amount);
    let hi = hi_byte(amount);
    rom.write_byte(off, lo);
    rom.write_byte(off + 1, hi);
    assert(rom@ =~= write_at(old(rom)@, off as int, le16(amount)));
    off
}

} // verus!
