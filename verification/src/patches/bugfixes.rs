use vstd::prelude::*;

use crate::allocator::{after_alloc, can_alloc, FreeSpaceAllocator};
use crate::consts::{jsr_bytes, jsr_seq};
use crate::rom::{cpu_fits, lemma_write_same_layout, write_cpu, Rom};

verus! {

broadcast use lemma_write_same_layout;

/// NOP x9: drops the halving of the player's health.
pub const HOURGLASS_NOPS: [u8; 9] = [0xEA, 0xEA, 0xEA, 0xEA, 0xEA, 0xEA, 0xEA, 0xEA, 0xEA];

/// New code: ignore shield deflection when the player has ointment.
pub const SHIELD_OINTMENT_CODE: [u8; 12] = [
    0xAD, 0x27, 0x04,           // LDA $0427        ; a:DurationOintment
    0x10, 0x04,                 // BPL +4           ; @skip
    0xAD, 0xBF, 0x03,           // LDA $03BF        ; a:SelectedShield
    0x60,                       // RTS
                                // @skip:
    0xA9, 0x03,                 // LDA #$03
    0x60,                       // RTS
];

/// New code: no damage from Sugata's flash while ointment is active.
pub const SUGATA_OINTMENT_CODE: [u8; 16] = [
    0xAD, 0x27, 0x04,       // LDA $0427        ; a:DurationOintment
    0x10, 0x0A,             // BPL +10          ; @skipDamage
    0xA9, 0x00,             // LDA #$00
    0x8D, 0xBC, 0x04,       // STA $04BC        ; a:Arg_PlayerHealthDelta_L
    0xA9, 0x0A,             // LDA #$0A
    0x8D, 0xBD, 0x04,       // STA $04BD        ; a:Arg_PlayerHealthDelta_U
                            // @skipDamage:
    0x60,                   // RTS
];

/// `JSR addr` followed by seven NOPs.
pub open spec fn sugata_hook(addr: u16) -> Seq<u8> {
    jsr_seq(addr) + seq![0xEAu8, 0xEA, 0xEA, 0xEA, 0xEA, 0xEA, 0xEA]
}

/*
 * Hourglass Fixed
 *
 * In the original game, Hourglass cost half of the player's health. This
 * removes that cost.
 *
 * Original patch by Notlob for Randumizer
 */
pub fn fix_hourglass(rom: &mut Rom)
    requires
        cpu_fits(old(rom)@, 15, 0xC5D8, 9),
    ensures
        final(rom)@ == write_cpu(old(rom)@, 15, 0xC5D8, HOURGLASS_NOPS@),
{
    // NOP out where the player's health is halved
    let stub = HOURGLASS_NOPS;
    let off = rom.cpu_to_file_offset(15, 0xC5D8);
    rom.write_bytes(off, &stub);
}

/*
 * Shield-Ointment Fix
 *
 * In the original game, shields were not ignored when you had ointment.
 * This means getting hit with a spell knocked you back still, making it
 * advantageous for speedrunners to skip equipping shields altogether.
 *
 * This patches the behaviour so that magic passes through shields when
 * ointment is active.
 *
 * Code originally by Notlob for the Randumizer
 */
pub fn shield_ointment_fix(rom: &mut Rom, alloc: &mut FreeSpaceAllocator)
    requires
        can_alloc(old(alloc)@, 14, 12),
        cpu_fits(old(rom)@, 14, old(alloc)@[14].next as int, 12),
        cpu_fits(old(rom)@, 14, 0x877C, 3),
    ensures
        final(alloc)@ == after_alloc(old(alloc)@, 14, 12),
        final(rom)@ == write_cpu(
            write_cpu(old(rom)@, 14, old(alloc)@[14].next as int, SHIELD_OINTMENT_CODE@),
            14,
            0x877C,
            jsr_seq(old(alloc)@[14].next),
        ),
{
    // newcode: ignore shield deflection when player has ointment
    let code = SHIELD_OINTMENT_CODE;
    let addr = alloc.allocate(14, code.len());
    let off = rom.cpu_to_file_offset(14, addr);
    rom.write_bytes(off, &code);

    // overwrite with JSR to newcode
    let off = rom.cpu_to_file_offset(14, 0x877C);
    rom.write_bytes(off, &jsr_bytes(addr));
}

/*
 * Ointment Fix: Sugata
 *
 * In the original game, the Sugata's screenwide "flash" attack actually ignores ointment.
 * For this patch we keep the knockback but skip having any damage if ointment is currently
 * active.
 */
pub fn ointment_sugata_fix(rom: &mut Rom, alloc: &mut FreeSpaceAllocator)
    requires
        can_alloc(old(alloc)@, 14, 16),
        cpu_fits(old(rom)@, 14, old(alloc)@[14].next as int, 16),
        cpu_fits(old(rom)@, 14, 0xAB53, 10),
    ensures
        final(alloc)@ == after_alloc(old(alloc)@, 14, 16),
        final(rom)@ == write_cpu(
            write_cpu(old(rom)@, 14, old(alloc)@[14].next as int, SUGATA_OINTMENT_CODE@),
            14,
            0xAB53,
            sugata_hook(old(alloc)@[14].next),
        ),
{
    let code = SUGATA_OINTMENT_CODE;
    let addr = alloc.allocate(14, code.len());
    let off = rom.cpu_to_file_offset(14, addr);
    rom.write_bytes(off, &code);

    let hook: [u8; 10] = [
        jsr_bytes(addr)[0], jsr_bytes(addr)[1], jsr_bytes(addr)[2],
        0xEA, 0xEA, 0xEA,       // NOP ; x7
        0xEA, 0xEA, 0xEA,
        0xEA,
    ];
    assert(hook@ =~= sugata_hook(addr));
    let off = rom.cpu_to_file_offset(14, 0xAB53);
    rom.write_bytes(off, &hook);
}

/*
 * Fix Fire Spell animation
 *
 * This fixes a wrong frame definition in the Fire spell animation.
 *
 * Original code by Kaimitai.
 */
pub fn fix_fire_spell_animation(rom: &mut Rom)
    requires
        cpu_fits(old(rom)@, 7, 0xA5D3, 1),
    ensures
        final(rom)@ == write_cpu(old(rom)@, 7, 0xA5D3, seq![0x7Eu8]),
{
    let off = rom.cpu_to_file_offset(7, 0xA5D3);
    let b: [u8; 1] = [0x7E];
    assert(b@ =~= seq![0x7Eu8]);
    rom.write_bytes(off, &b);
}

/*
 * Fix Studded Mail Climb Tile
 *
 * This fixes a bug that appears when Studded Mail is equipped without
 * a shield. When the player uses a ladder, one of the tiles is wrong.
 *
 * Original code by Kaimitai.
 */
pub fn fix_studded_mail_climb_tile(rom: &mut Rom)
    requires
        cpu_fits(old(rom)@, 7, 0xABF9, 1),
    ensures
        final(rom)@ == write_cpu(old(rom)@, 7, 0xABF9, seq![0x30u8]),
{
    let off = rom.cpu_to_file_offset(7, 0xABF9);
    let b: [u8; 1] = [0x30];
    assert(b@ =~= seq![0x30u8]);
    rom.write_bytes(off, &b);
}

} // verus!
