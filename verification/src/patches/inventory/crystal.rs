use vstd::prelude::*;

use crate::consts::{hi, hi_byte, lo, lo_byte};
use crate::rom::{bank_base_of, cpu_fits, lemma_write_same_layout, write_at, write_cpu, Rom};

verus! {

broadcast use lemma_write_same_layout;

/*
 * Item: CRYSTAL
 * Implementation: Player equips item and presses Down + B. The will advance one
 *  world forward, but only to worlds that they have acquired the main quest item from.
 *  Once the highest world possible for them is reached, it will send them back to Eolis.
 *  This item is non-consumable but need to be equiped to use.
 *
 * Quest items required:
 *  Eolis (0): None
 *  Trunk (1): Ring of Ruby
 *  Mist (2): Black Onyx
 *  Branch (3): Ring of Dworf
 *  Dartmoor (4): Demon's Ring
 *
 * Currently you cannot warp into the Evil One's lair with this.
 */

/// File offset of the Crystal's entry in the use-item jump table.
pub open spec fn crystal_entry_offset(d: Seq<u8>) -> int {
    bank_base_of(d, 14) + (0xC49D - 0x8000) + (0x8B - 0x80) * 2
}

/// Patch the Crystal (0x8B) so it's usable with Down+B.
/// Returns the file offset of the table entry and the address written to it.
pub fn patch_crystal_warp(rom: &mut Rom) -> (r: (usize, u16))
    requires
        crystal_entry_offset(old(rom)@) + 1 < old(rom)@.len(),
    ensures
        r.0 == crystal_entry_offset(old(rom)@),
        r.1 == 0xFE67,
        final(rom)@ == write_at(old(rom)@, r.0 as int, seq![lo(0xFE67), hi(0xFE67)]),
{
    let bank: usize = 14;
    let jump_table_cpu: usize = 0xC49D;
    let base = rom.bank_base(bank);

    let table_off = base + (jump_table_cpu - 0x8000);

    // Crystal is item ID 0x8B
    // Table starts at 0x80, 2 bytes each.
    let index: usize = 0x8B - 0x80;
    let entry_off = table_off + index * 2;

    // Warp-up routine lives at $DFA3 but..
    //  the bank switch process works by jumping to one byte before the instruction
    //  then naturally advancing, so we subtract 1 to reach our target.
    let target: u16 = 0xFE68 - 1;
    let lo = lo_byte(target);
    let hi = hi_byte(target);

    rom.write_byte(entry_off, lo);
    rom.write_byte(entry_off + 1, hi);
    assert(rom@ =~= write_at(old(rom)@, entry_off as int, seq![crate::consts::lo(0xFE67), crate::consts::hi(0xFE67)]));
    (entry_off, target)
}

pub const CRYSTAL_WARP_CPU: u16 = 0xFE68;

/// Warp routine at $FE68: advance the area to the next one whose quest item the player
/// holds, wrapping to Eolis, then load it. Every "goto next" branch lands on the next
/// area's CPY, and every jump to $FED1 lands on the STY that saves the area.
pub const CRYSTAL_WARP_STUB: [u8; 112] = [

    0xA9, 0x0A, // LDA #$16 SFX Ref
    0x20, 0xE4, 0xD0, // JSR $D0E4 SFX Execute
    0xAD, 0x2C, 0x04, // LDA $042C Get the special items
    0x29, 0x71, // AND #%01110001 Check Ruby, Onyx, Dworf, Demon
    0xD0, 0x08, // BNE If we have none of these, go to Eolis (0)
    0xA9, 0x00, // LDA #$00
    0x8D, 0x35, 0x04, // STA $0435 Save the area
    0x4C, 0xD1, 0xFE, // JMP $FED1
    // --- $FE7C LoopStart
    0xEE, 0x35, 0x04, // INC $0435 increment area by 1
    0xAD, 0x35, 0x04, // LDA $0435
    0xC9, 0x05, // CMP #$05
    0x90, 0x08, // BCC NotWrap
    0xA9, 0x00, // LDA #$00 Go to Eolis
    0x8D, 0x35, 0x04, // STA $0435 Save the area
    0x4C, 0xD1, 0xFE, // JMP $FED1
    0xA8, // TAY = Load Area_Region into Y
    // --- AREA 1 Trunk
    0xC0, 0x01, // CPY #$01 Is this area 1
    0xD0, 0x0D, // BNE goto next (2)
    0xAD, 0x2C, 0x04, // LDA $042C Get the special items
    0x29, 0x40, // AND #$40 Do we have Ring of Ruby?
    0xD0, 0x03, // BNE
    0x4C, 0x7C, 0xFE, // JMP $FE7C No Ruby → Back to LoopStart
    0x4C, 0xD1, 0xFE, // JMP $FED1
    // --- AREA 2 Mist
    0xC0, 0x02, // CPY #$02 Is this area 2
    0xD0, 0x0D, // BNE goto next (3)
    0xAD, 0x2C, 0x04, // LDA $042C Get the special items
    0x29, 0x01, // AND #$01 Do we have Black Onyx?
    0xD0, 0x03, // BNE
    0x4C, 0x7C, 0xFE, // JMP $FE7C No Black Onyx → Back to LoopStart
    0x4C, 0xD1, 0xFE, // JMP $FED1
    // --- AREA 3 Branch
    0xC0, 0x03, // CPY #$03 Is this area 3
    0xD0, 0x0D, // BNE goto next (4)
    0xAD, 0x2C, 0x04, // LDA $042C Get the special items
    0x29, 0x20, // AND #$20 Do we have Ring of Dworf?
    0xD0, 0x03, // BNE
    0x4C, 0x7C, 0xFE, // JMP $FE7C No Ring of Dworf → Back to LoopStart
    0x4C, 0xD1, 0xFE, // JMP $FED1
    // --- AREA 4 Dartmoor
    0xC0, 0x04, // CPY #$04 Is this area 4
    0xD0, 0x0B, // BNE goto next (0)
    0xAD, 0x2C, 0x04, // LDA $042C Get the special items
    0x29, 0x10, // AND #$10 Do we have Demon's Ring?
    0xD0, 0x03, // BNE
    0x4C, 0x7C, 0xFE, // JMP $FE7C No Demon's Ring → Back to LoopStart
    0xEA, // NOP (never reached; places the warp entry at $FED1)
    // --- Save area and trigger warp $FED1
    0x8C, 0x35, 0x04, // STY $0435 Save the area
    // --- JSR to area load subroutine $FED4
    0x20, 0xDC, 0xDA, // JSR $DADC
    0x60, // RTS

];

pub fn install_crystal_warp_stub(rom: &mut Rom)
    requires
        cpu_fits(old(rom)@, 15, CRYSTAL_WARP_CPU as int, 112),
    ensures
        final(rom)@ == write_cpu(old(rom)@, 15, CRYSTAL_WARP_CPU as int, CRYSTAL_WARP_STUB@),
{
    let stub = CRYSTAL_WARP_STUB;
    let off = rom.cpu_to_file_offset(15, CRYSTAL_WARP_CPU);
    rom.write_slice(off, &stub);
}

/// File offset of the magic shop entry that gets the Crystal ($A363 in bank 12).
pub open spec fn magic_shop_entry_offset(d: Seq<u8>) -> int {
    bank_base_of(d, 12) + (0xA363 - 0x8000)
}

/// Add the Crystal to the magic shop's iScript. Returns the file offset written.
pub fn add_crystal_to_magic_shop(rom: &mut Rom) -> (r: usize)
    requires
        magic_shop_entry_offset(old(rom)@) + 1 < old(rom)@.len(),
    ensures
        r == magic_shop_entry_offset(old(rom)@),
        final(rom)@ == write_at(old(rom)@, r as int, seq![0x07u8, 0x8B]),
{
    // Crystal shop patch lives in bank 12
    let bank: usize = 12;
    let base = rom.bank_base(bank);

    // CPU address of the shop entries we want to patch
    let shop_entry_cpu: usize = 0xA363;

    // Convert to file offset
    let entry_off = base + (shop_entry_cpu - 0x8000);

    // Write Crystal (0x8B) into the iScript
    rom.write_byte(entry_off, 0x07);  // ISCRIPT_ACTION_ADD_ITEM
    rom.write_byte(entry_off + 1, 0x8B);  // Crystal
    assert(rom@ =~= write_at(old(rom)@, entry_off as int, seq![0x07u8, 0x8B]));
    entry_off
}

} // verus!
