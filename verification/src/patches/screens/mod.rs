use vstd::prelude::*;

use crate::consts::TARGET_BANK;
use crate::rom::{cpu_fits, write_cpu, Rom};
use eolis::EolisScreen;

pub mod eolis;

verus! {

pub const START_SCREEN_CPU: u16 = 0xDECB;

/// Write the starting Eolis screen byte at bank 15:$DECB.
pub fn set_start_screen(rom: &mut Rom, screen: EolisScreen)
    requires
        cpu_fits(old(rom)@, TARGET_BANK as int, START_SCREEN_CPU as int, 1),
    ensures
        final(rom)@ == write_cpu(old(rom)@, TARGET_BANK as int, START_SCREEN_CPU as int, seq![screen.byte()]),
{
    let off = rom.cpu_to_file_offset(TARGET_BANK, START_SCREEN_CPU);
    rom.write_byte(off, screen.to_byte());
    assert(rom@ =~= write_cpu(old(rom)@, TARGET_BANK as int, START_SCREEN_CPU as int, seq![screen.byte()]));
}

} // verus!
