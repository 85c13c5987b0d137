use faxanadu_patcher::allocator::FreeSpaceAllocator;
use faxanadu_patcher::patches::apply_all_hud_patches;
use faxanadu_patcher::patches::bugfixes::{
    fix_fire_spell_animation, fix_hourglass, fix_studded_mail_climb_tile, ointment_sugata_fix,
    shield_ointment_fix, SHIELD_OINTMENT_CODE, SUGATA_OINTMENT_CODE,
};
use faxanadu_patcher::patches::hud::{substitute_all_jsr, apply_all_hud_patches as write_hud_routines};
use faxanadu_patcher::patches::indoor::{allow_items_indoors, draw_weapon_indoors, equip_items_indoors};
use faxanadu_patcher::patches::inventory::crystal::{
    add_crystal_to_magic_shop, install_crystal_warp_stub, patch_crystal_warp, CRYSTAL_WARP_STUB,
};
use faxanadu_patcher::patches::inventory::gold::set_starting_gold;
use faxanadu_patcher::patches::items::{
    black_potion_to_mana_potion, crystal_overworld_pickup, crystal_warp_to_spawn,
    fire_crystal_overworld_pickup, fire_crystal_screen_damage, poison_to_black_potion,
    CRYSTAL_PICKUP_CODE, CRYSTAL_TILES, CRYSTAL_WARP_CODE, FIRE_CRYSTAL_DAMAGE_CODE,
    FIRE_CRYSTAL_TILES, MANA_POTION_CODE,
};
use faxanadu_patcher::patches::level_skip::{apply_pause_select_warp_patch, WARP_ROUTINE};
use faxanadu_patcher::patches::music::pause::apply_pause_music_patch;
use faxanadu_patcher::patches::player::{
    add_killswitch, allow_lower_respawn, allow_menu_on_first_screen, no_knockback_on_ladders,
    pendant_quest_25, pendant_quest_50, KILLSWITCH_CODE, NO_KNOCKBACK_CODE, PENDANT_CODE_25,
    PENDANT_CODE_50,
};
use faxanadu_patcher::patches::screens::eolis::EolisScreen;
use faxanadu_patcher::patches::screens::set_start_screen;
use faxanadu_patcher::patches::shops::{allow_all_items_to_be_sold, SELL_ANYTHING_CODE};
use faxanadu_patcher::patches::sprites::clone_sprite_1d_to_25;
use faxanadu_patcher::patches::text::{faster_text, faster_text_v2, TEXT_SOUND_CODE};
use faxanadu_patcher::rom::Rom;

const BANK: usize = 0x4000;

/// Headered image: bytes are 0x00 except the second half of banks 12, 14 and 15,
/// which is free ($FF).
fn test_rom() -> Rom {
    let mut v = vec![0u8; 16 + 16 * BANK];
    v[0..4].copy_from_slice(&[0x4E, 0x45, 0x53, 0x1A]);
    for bank in [12usize, 14, 15] {
        let base = 16 + bank * BANK;
        for i in 0x2000..BANK {
            v[base + i] = 0xFF;
        }
    }
    Rom::from_bytes(v)
}

fn at(rom: &Rom, bank: usize, cpu: u16, n: usize) -> Vec<u8> {
    let off = rom.cpu_to_file_offset(bank, cpu);
    rom.data()[off..off + n].to_vec()
}

#[test]
fn hourglass_and_fixed_byte_patches() {
    let mut rom = test_rom();
    fix_hourglass(&mut rom);
    assert_eq!(at(&rom, 15, 0xC5D8, 10), vec![0xEA, 0xEA, 0xEA, 0xEA, 0xEA, 0xEA, 0xEA, 0xEA, 0xEA, 0x00]);
    fix_fire_spell_animation(&mut rom);
    assert_eq!(at(&rom, 7, 0xA5D3, 1), vec![0x7E]);
    fix_studded_mail_climb_tile(&mut rom);
    assert_eq!(at(&rom, 7, 0xABF9, 1), vec![0x30]);
    equip_items_indoors(&mut rom);
    assert_eq!(at(&rom, 12, 0x8B87, 1), vec![0xFF]);
    allow_items_indoors(&mut rom);
    assert_eq!(at(&rom, 15, 0xDE08, 1), vec![0xAD]);
    draw_weapon_indoors(&mut rom);
    assert_eq!(at(&rom, 15, 0xEDF0, 1), vec![0xFF]);
    allow_lower_respawn(&mut rom);
    assert_eq!(at(&rom, 12, 0x8394, 5), vec![0xEA; 5]);
    allow_menu_on_first_screen(&mut rom);
    assert_eq!(at(&rom, 15, 0xE01C, 2), vec![0xEA, 0xEA]);
    faster_text(&mut rom);
    assert_eq!(at(&rom, 15, 0xF49F, 1), vec![0x01]);
    poison_to_black_potion(&mut rom);
    assert_eq!(at(&rom, 15, 0xC845, 10), vec![0x08, 0x20, 0xE4, 0xD0, 0xAE, 0x03, 0x78, 0x60, 0xEA, 0xEA]);
}

#[test]
fn allocating_patches_place_code_and_hook_it() {
    let mut rom = test_rom();
    let mut alloc = FreeSpaceAllocator::new(&rom);
    // free space of bank 14 starts two bytes past the last 0x00 byte
    shield_ointment_fix(&mut rom, &mut alloc);
    assert_eq!(at(&rom, 14, 0xA001, 12), SHIELD_OINTMENT_CODE.to_vec());
    assert_eq!(at(&rom, 14, 0x877C, 3), vec![0x20, 0x01, 0xA0]);
    ointment_sugata_fix(&mut rom, &mut alloc);
    assert_eq!(at(&rom, 14, 0xA00D, 16), SUGATA_OINTMENT_CODE.to_vec());
    assert_eq!(at(&rom, 14, 0xAB53, 10), vec![0x20, 0x0D, 0xA0, 0xEA, 0xEA, 0xEA, 0xEA, 0xEA, 0xEA, 0xEA]);
    // the first patch's code survives the second
    assert_eq!(at(&rom, 14, 0xA001, 12), SHIELD_OINTMENT_CODE.to_vec());
    assert_eq!(alloc.region(14).unwrap().next, 0xA01D);
}

#[test]
fn fire_crystal_chains_to_mana_potion() {
    let mut rom = test_rom();
    let mut alloc = FreeSpaceAllocator::new(&rom);
    let mana = black_potion_to_mana_potion(&mut rom, &mut alloc);
    assert_eq!(mana, 0xE001);
    assert_eq!(at(&rom, 15, 0xE001, 25), MANA_POTION_CODE.to_vec());
    assert_eq!(at(&rom, 15, 0xC48B, 3), vec![0x20, 0x01, 0xE0]);
    fire_crystal_screen_damage(&mut rom, &mut alloc, mana);
    // bank 14 damage code with its JMP @next filled in
    let mut b14 = FIRE_CRYSTAL_DAMAGE_CODE.to_vec();
    b14[65..68].copy_from_slice(&[0x4C, 0x48, 0xA0]);
    assert_eq!(at(&rom, 14, 0xA001, 96), b14);
    // bank 15 dispatch right after the Mana Potion code
    let dispatch = at(&rom, 15, 0xE01A, 35);
    assert_eq!(&dispatch[7..10], &[0x4C, 0x01, 0xE0]);
    assert_eq!(&dispatch[31..34], &[0x0E, 0x00, 0xA0]);
    assert_eq!(at(&rom, 15, 0xC48B, 3), vec![0x20, 0x1A, 0xE0]);
    // Mana Potion code still in place
    assert_eq!(at(&rom, 15, 0xE001, 25), MANA_POTION_CODE.to_vec());
}

#[test]
fn crystal_patches() {
    let mut rom = test_rom();
    let mut alloc = FreeSpaceAllocator::new(&rom);
    crystal_warp_to_spawn(&mut rom, &mut alloc);
    assert_eq!(at(&rom, 15, 0xE001, 31), CRYSTAL_WARP_CODE.to_vec());
    assert_eq!(at(&rom, 15, 0xC4B3, 2), vec![0x00, 0xE0]);
    crystal_overworld_pickup(&mut rom, &mut alloc);
    assert_eq!(at(&rom, 15, 0xE020, 43), CRYSTAL_PICKUP_CODE.to_vec());
    assert_eq!(at(&rom, 15, 0xC83C, 8), vec![0x4C, 0x20, 0xE0, 0xEA, 0xEA, 0xEA, 0xEA, 0xEA]);
    assert_eq!(at(&rom, 7, 0x8C96, 64), CRYSTAL_TILES.to_vec());
    assert_eq!(at(&rom, 7, 0x9AB6, 1), vec![0x11]);
    assert_eq!(at(&rom, 7, 0x8036, 2), vec![0x96, 0x0C]);
    assert_eq!(at(&rom, 14, 0x8CEB, 1), vec![0xD7]);
    assert_eq!(at(&rom, 15, 0xCE67, 1), vec![0x04]);
    fire_crystal_overworld_pickup(&mut rom, &mut alloc);
    assert_eq!(at(&rom, 15, 0xC826, 3), vec![0x4C, 0x4B, 0xE0]);
    assert_eq!(at(&rom, 7, 0x8CD6, 64), FIRE_CRYSTAL_TILES.to_vec());
    assert_eq!(at(&rom, 7, 0x8034, 2), vec![0xD6, 0x0C]);
    assert_eq!(at(&rom, 14, 0x8CEA, 1), vec![0xD7]);
    assert_eq!(at(&rom, 15, 0xCE66, 1), vec![0x04]);
    // the Crystal pickup is still whole after the Fire Crystal went in
    assert_eq!(at(&rom, 15, 0xE020, 43), CRYSTAL_PICKUP_CODE.to_vec());
    assert_eq!(at(&rom, 15, 0xC83C, 8), vec![0x4C, 0x20, 0xE0, 0xEA, 0xEA, 0xEA, 0xEA, 0xEA]);
    assert_eq!(at(&rom, 7, 0x8C96, 64), CRYSTAL_TILES.to_vec());
    assert_eq!(at(&rom, 7, 0x9AB6, 1), vec![0x11]);
    assert_eq!(at(&rom, 7, 0x8036, 2), vec![0x96, 0x0C]);
    assert_eq!(at(&rom, 14, 0x8CEB, 1), vec![0xD7]);
    assert_eq!(at(&rom, 15, 0xCE67, 1), vec![0x04]);
}

#[test]
fn player_patches() {
    let mut rom = test_rom();
    let mut alloc = FreeSpaceAllocator::new(&rom);
    no_knockback_on_ladders(&mut rom, &mut alloc);
    assert_eq!(at(&rom, 15, 0xE001, 19), NO_KNOCKBACK_CODE.to_vec());
    assert_eq!(at(&rom, 15, 0xE28C, 4), vec![0x20, 0x01, 0xE0, 0xEA]);
    add_killswitch(&mut rom, &mut alloc);
    assert_eq!(at(&rom, 15, 0xE014, 15), KILLSWITCH_CODE.to_vec());
    assert_eq!(at(&rom, 15, 0xE039, 3), vec![0x20, 0x14, 0xE0]);
    pendant_quest_25(&mut rom, &mut alloc);
    assert_eq!(at(&rom, 14, 0xA001, 31), PENDANT_CODE_25.to_vec());
    assert_eq!(
        at(&rom, 14, 0x8879, 11),
        vec![0xF0, 0x09, 0x20, 0x01, 0xA0, 0xEA, 0xEA, 0xEA, 0xEA, 0xEA, 0xEA]
    );
    pendant_quest_50(&mut rom, &mut alloc);
    assert_eq!(at(&rom, 14, 0xA020, 24), PENDANT_CODE_50.to_vec());
    assert_eq!(at(&rom, 14, 0x887B, 3), vec![0x20, 0x20, 0xA0]);
}

#[test]
fn text_and_shop_patches() {
    let mut rom = test_rom();
    let mut alloc = FreeSpaceAllocator::new(&rom);
    faster_text_v2(&mut rom, &mut alloc);
    assert_eq!(at(&rom, 15, 0xF49F, 1), vec![0x01]);
    assert_eq!(at(&rom, 15, 0xE001, 12), TEXT_SOUND_CODE.to_vec());
    assert_eq!(at(&rom, 15, 0xF472, 5), vec![0x20, 0x01, 0xE0, 0xEA, 0xEA]);
    allow_all_items_to_be_sold(&mut rom, &mut alloc);
    assert_eq!(at(&rom, 12, 0xA001, 30), SELL_ANYTHING_CODE.to_vec());
    assert_eq!(at(&rom, 12, 0x8691, 3), vec![0x4C, 0x01, 0xA0]);
}

#[test]
fn sprite_clone_copies_every_table_entry() {
    let mut rom = test_rom();
    let w = rom.cpu_to_file_offset(14, 0x8087 + 29 * 2);
    rom.write_word(w, 0xABCD);
    let c = rom.cpu_to_file_offset(6, 0x8002 + 29 * 2);
    rom.write_word(c, 0x1234);
    let p = rom.cpu_to_file_offset(14, 0x8C9F + 29);
    rom.write_byte(p, 0x5A);
    let t = rom.cpu_to_file_offset(15, 0xCE1B + 29);
    rom.write_byte(t, 0x06);
    let f = rom.cpu_to_file_offset(14, 0xB672 + 29);
    rom.write_byte(f, 0x81);
    clone_sprite_1d_to_25(&mut rom);
    assert_eq!(rom.read_word(rom.cpu_to_file_offset(14, 0x8087 + 37 * 2)), 0xABCD);
    assert_eq!(rom.read_word(rom.cpu_to_file_offset(6, 0x8002 + 37 * 2)), 0x1234);
    assert_eq!(rom.read_byte(rom.cpu_to_file_offset(14, 0x8C9F + 37)), 0x5A);
    assert_eq!(rom.read_byte(rom.cpu_to_file_offset(15, 0xCE1B + 37)), 0x06);
    assert_eq!(rom.read_byte(rom.cpu_to_file_offset(14, 0xB672 + 37)), 0x81);
}

#[test]
fn pause_music_reports_what_it_found() {
    let mut rom = test_rom();
    rom.write_byte(0x14020, 0xD0);
    rom.write_slice(0x14045, &[0x20, 0x4A, 0x80]);
    let (b, c) = apply_pause_music_patch(&mut rom);
    assert_eq!(b, 0xD0);
    assert_eq!(c, [0x20, 0x4A, 0x80]);
    assert_eq!(rom.read_byte(0x14020), 0xF0);
    assert_eq!(&rom.data()[0x14045..0x14048], &[0xEA, 0xEA, 0xEA]);
    // a second run finds the patched bytes
    let (b, c) = apply_pause_music_patch(&mut rom);
    assert_eq!(b, 0xF0);
    assert_eq!(c, [0xEA, 0xEA, 0xEA]);
}

#[test]
fn pause_select_warp() {
    let mut rom = test_rom();
    apply_pause_select_warp_patch(&mut rom);
    assert_eq!(at(&rom, 15, 0xE039, 3), vec![0x20, 0x40, 0xFE]);
    assert_eq!(at(&rom, 15, 0xFE40, 39), WARP_ROUTINE.to_vec());
}

#[test]
fn crystal_warp_table_stub_and_shop() {
    let mut rom = test_rom();
    let (off, target) = patch_crystal_warp(&mut rom);
    assert_eq!(off, 16 + 14 * BANK + 0x449D + 22);
    assert_eq!(target, 0xFE67);
    assert_eq!(&rom.data()[off..off + 2], &[0x67, 0xFE]);
    install_crystal_warp_stub(&mut rom);
    assert_eq!(at(&rom, 15, 0xFE68, 112), CRYSTAL_WARP_STUB.to_vec());
    let shop = add_crystal_to_magic_shop(&mut rom);
    assert_eq!(shop, 16 + 12 * BANK + 0x2363);
    assert_eq!(&rom.data()[shop..shop + 2], &[0x07, 0x8B]);
}

#[test]
fn starting_gold_and_screen() {
    let mut rom = test_rom();
    let off = set_starting_gold(&mut rom, 0x0190);
    assert_eq!(off, 16 + 15 * BANK + 0x1E8D);
    assert_eq!(at(&rom, 15, 0xDE8D, 2), vec![0x90, 0x01]);
    set_start_screen(&mut rom, EolisScreen::PalaceExterior);
    assert_eq!(at(&rom, 15, 0xDECB, 1), vec![0x07]);
}

#[test]
fn hud_hooks_and_routines() {
    let mut rom = test_rom();
    let subs = substitute_all_jsr(&mut rom);
    assert_eq!(subs.len(), 5);
    assert_eq!(subs[0], (0xC8BF, 16 + 15 * BANK + 0x08BF, 0xFCD0));
    assert_eq!(at(&rom, 15, 0xFA7E, 3), vec![0x20, 0x90, 0xFD]);
    let written = write_hud_routines(&mut rom);
    assert_eq!(written.len(), 7);
    assert_eq!(written[0], (0xFCD0, 10));
    assert_eq!(at(&rom, 15, 0xFCD0, 10), vec![0xCE, 0x27, 0x04, 0x20, 0x00, 0xFD, 0xAD, 0x27, 0x04, 0x60]);
    let mut rom2 = test_rom();
    apply_all_hud_patches(&mut rom2);
    assert_eq!(rom2.data(), rom.data());
}

#[test]
fn crystal_warp_stub_branches_land_on_instructions() {
    let s = CRYSTAL_WARP_STUB;
    // Every JMP $FED1 lands on the STY $0435 that saves the area.
    let warp = 0xFED1 - 0xFE68;
    assert_eq!(&s[warp..warp + 3], &[0x8C, 0x35, 0x04]);
    // The area-load JSR sits at $FED4.
    let jsr = 0xFED4 - 0xFE68;
    assert_eq!(&s[jsr..jsr + 3], &[0x20, 0xDC, 0xDA]);
    let mut jumps = 0;
    for k in 0..s.len() - 2 {
        if s[k] == 0x4C && s[k + 1] == 0xD1 && s[k + 2] == 0xFE {
            jumps += 1;
        }
    }
    assert_eq!(jumps, 5);
    // Each area check's "BNE goto next" lands on the next area's CPY.
    for (bne, next) in [(41usize, 56usize), (58, 73), (75, 90)] {
        assert_eq!(s[bne], 0xD0);
        assert_eq!(bne + 2 + s[bne + 1] as usize, next);
        assert_eq!(s[next], 0xC0);
    }
    // The last area's check falls through to the warp entry.
    assert_eq!(s[92], 0xD0);
    assert_eq!(94 + s[93] as usize, warp);
    // The loop start is at $FE7C.
    assert_eq!(&s[0xFE7C - 0xFE68..0xFE7C - 0xFE68 + 3], &[0xEE, 0x35, 0x04]);
}
