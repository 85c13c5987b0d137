use vstd::prelude::*;

use crate::rom::{write_at, Rom};

verus! {

/// File offset of the branch that skips the music while paused.
pub const PAUSE_BRANCH_OFFSET: usize = 0x14020;

/// File offset of the call that silences the music while paused.
pub const PAUSE_CALL_OFFSET: usize = 0x14045;

/// The byte expected at `PAUSE_BRANCH_OFFSET` in an unpatched ROM (`BNE`).
pub const PAUSE_BRANCH_EXPECTED: u8 = 0xD0;

/// The bytes expected at `PAUSE_CALL_OFFSET` in an unpatched ROM (`JSR $804A`).
pub const PAUSE_CALL_EXPECTED: [u8; 3] = [0x20, 0x4A, 0x80];

/// Play music on the pause screen: turn the branch at 0x14020 into `BEQ` and NOP out
/// the call at 0x14045. Returns the bytes found there before patching, so that the
/// caller can warn when they are not the expected ones.
pub fn apply_pause_music_patch(rom: &mut Rom) -> (r: (u8, [u8; 3]))
    requires
        PAUSE_CALL_OFFSET + 3 <= old(rom)@.len(),
    ensures
        r.0 == old(rom)@[PAUSE_BRANCH_OFFSET as int],
        r.1@ == old(rom)@.subrange(PAUSE_CALL_OFFSET as int, PAUSE_CALL_OFFSET + 3),
        final(rom)@ == write_at(
            old(rom)@.update(PAUSE_BRANCH_OFFSET as int, 0xF0),
            PAUSE_CALL_OFFSET as int,
            seq![0xEAu8, 0xEA, 0xEA],
        ),
{
    // Patch 1: 0x14020 D0 -> F0
    let off1 = PAUSE_BRANCH_OFFSET;
    let before1 = rom.read_byte(off1);
    rom.write_byte(off1, 0xF0);

    // Patch 2: 0x14045 20 4A 80 -> EA EA EA
    let off2 = PAUSE_CALL_OFFSET;
    let before2 = [rom.read_byte(off2), rom.read_byte(off2 + 1), rom.read_byte(off2 + 2)];
    assert(before2@ =~= old(rom)@.subrange(PAUSE_CALL_OFFSET as int, PAUSE_CALL_OFFSET + 3));
    let nops: [u8; 3] = [0xEA, 0xEA, 0xEA];
    assert(nops@ =~= seq![0xEAu8, 0xEA, 0xEA]);
    rom.write_slice(off2, &nops);
    (before1, before2)
}

} // verus!
