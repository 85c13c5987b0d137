use vstd::prelude::*;

use crate::rom::{cpu_fits, write_cpu, Rom};

verus! {

/*
 * Equip Items indoors
 *
 * In the original game, no items could be equipped while indoors. This removes The
 * restriction.
 */
pub fn equip_items_indoors(rom: &mut Rom)
    requires
        cpu_fits(old(rom)@, 12, 0x8B87, 1),
    ensures
        final(rom)@ == write_cpu(old(rom)@, 12, 0x8B87, seq![0xFFu8]),
{
    let stub: [u8; 1] = [0xFF];
    assert(stub@ =~= seq![0xFFu8]);
    let off = rom.cpu_to_file_offset(12, 0x8B87);
    rom.write_bytes(off, &stub);
}

/*
 * Allow Items indoors
 *
 * In the original games, no items could be used indoors. This removes the restriction.
 */
pub fn allow_items_indoors(rom: &mut Rom)
    requires
        cpu_fits(old(rom)@, 15, 0xDE08, 1),
    ensures
        final(rom)@ == write_cpu(old(rom)@, 15, 0xDE08, seq![0xADu8]),
{
    // NOP out "STA Player_CurWeapon" in Game_EnterBuilding (Bank 15 $DE06)
    let stub: [u8; 1] = [
        0xAD,  // LDA ; essentially a no-op
    ];
    assert(stub@ =~= seq![0xADu8]);
    let off = rom.cpu_to_file_offset(15, 0xDE08);
    rom.write_bytes(off, &stub);
}

/*
 * Draw Weapon indoors
 *
 * In the original game, weapons were not shown when in a building. This
 * removes that restriction.
 */
pub fn draw_weapon_indoors(rom: &mut Rom)
    requires
        cpu_fits(old(rom)@, 15, 0xEDF0, 1),
    ensures
        final(rom)@ == write_cpu(old(rom)@, 15, 0xEDF0, seq![0xFFu8]),
{
    let stub: [u8; 1] = [0xFF];
    assert(stub@ =~= seq![0xFFu8]);
    let off = rom.cpu_to_file_offset(15, 0xEDF0);
    rom.write_bytes(off, &stub);
}

} // verus!
