use vstd::prelude::*;

use crate::consts::{hi_byte, lo_byte};
use crate::rom::{cpu_fits, file_offset, lemma_write_same_layout, write_cpu, Rom};

verus! {

broadcast use lemma_write_same_layout;

pub const SOURCE_ENTITY: u16 = 29;  // 0x1D, Skeleton Knight
pub const TARGET_ENTITY: u16 = 37;  // 0x25, Invisible Stationary #2

// Per-entity table base addresses
pub const SPRITE_UPDATE_HANDLERS: u16 = 0x8087;  // Bank 14, 2 bytes per entry
pub const BANK6_SPRITEADDRS_START: u16 = 0x8002;  // Bank 6, 2 bytes per entry
pub const SPRITE_APPEARANCE_PHASE_OFFSETS: u16 = 0x8C9F;  // Bank 14, 1 byte per entry
pub const SPRITES_PPU_TILE_COUNTS: u16 = 0xCE1B;  // Bank 15, 1 byte per entry
pub const SPRITE_RENDERING_FLAGS: u16 = 0xB672;  // Bank 14, 1 byte per entry

/// `d` with the `n` bytes at CPU address `src` of `bank` copied to CPU address `dst`.
pub open spec fn copy_cpu(d: Seq<u8>, bank: int, src: int, dst: int, n: int) -> Seq<u8> {
    write_cpu(d, bank, dst, d.subrange(file_offset(d, bank, src), file_offset(d, bank, src) + n))
}

/// The (bank, table base, entry size) of each per-entity table that the clone copies,
/// in the order copied.
pub open spec fn sprite_tables() -> Seq<(int, int, int)> {
    seq![
        (14, SPRITE_UPDATE_HANDLERS as int, 2),
        (6, BANK6_SPRITEADDRS_START as int, 2),
        (14, SPRITE_APPEARANCE_PHASE_OFFSETS as int, 1),
        (15, SPRITES_PPU_TILE_COUNTS as int, 1),
        (14, SPRITE_RENDERING_FLAGS as int, 1),
    ]
}

/// `d` after copying the entries of the source entity to the target entity in the first
/// `k` tables.
pub open spec fn sprite_cloned(d: Seq<u8>, k: int) -> Seq<u8>
    decreases k,
{
    if k <= 0 {
        d
    } else {
        let (bank, base, size) = sprite_tables()[k - 1];
        copy_cpu(
            sprite_cloned(d, k - 1),
            bank,
            base + SOURCE_ENTITY * size,
            base + TARGET_ENTITY * size,
            size,
        )
    }
}

/// Whether both entries of every table lie inside `d`.
pub open spec fn sprite_tables_fit(d: Seq<u8>) -> bool {
    forall|k: int|
        0 <= k < 5 ==> {
            let (bank, base, size) = #[trigger] sprite_tables()[k];
            &&& cpu_fits(d, bank, base + SOURCE_ENTITY * size, size)
            &&& cpu_fits(d, bank, base + TARGET_ENTITY * size, size)
        }
}

fn copy_word(rom: &mut Rom, bank: usize, src_cpu: u16, dst_cpu: u16)
    requires
        cpu_fits(old(rom)@, bank as int, src_cpu as int, 2),
        cpu_fits(old(rom)@, bank as int, dst_cpu as int, 2),
        bank >= 1,
    ensures
        final(rom)@ == copy_cpu(old(rom)@, bank as int, src_cpu as int, dst_cpu as int, 2),
{
    let src_off = rom.cpu_to_file_offset(bank, src_cpu);
    let value = rom.read_word(src_off);
    let dst_off = rom.cpu_to_file_offset(bank, dst_cpu);
    let bytes: [u8; 2] = [lo_byte(value), hi_byte(value)];
    assert(bytes@ =~= old(rom)@.subrange(src_off as int, src_off + 2));
    rom.write_bytes(dst_off, &bytes);
}

fn copy_byte(rom: &mut Rom, bank: usize, src_cpu: u16, dst_cpu: u16)
    requires
        cpu_fits(old(rom)@, bank as int, src_cpu as int, 1),
        cpu_fits(old(rom)@, bank as int, dst_cpu as int, 1),
        bank >= 1,
    ensures
        final(rom)@ == copy_cpu(old(rom)@, bank as int, src_cpu as int, dst_cpu as int, 1),
{
    let src_off = rom.cpu_to_file_offset(bank, src_cpu);
    let value = rom.read_byte(src_off);
    let dst_off = rom.cpu_to_file_offset(bank, dst_cpu);
    let bytes: [u8; 1] = [value];
    assert(bytes@ =~= old(rom)@.subrange(src_off as int, src_off + 1));
    rom.write_bytes(dst_off, &bytes);
}

/*
 * Clone Entity 0x1D (Skeleton Knight) Sprite to Entity 0x25
 *
 * This allows two versions of unused enemy sprite 0x1D ("Skeleton Knight")
 * with differing behaviours.
 *
 * In faxedit, place entity #37 to place this version, and use entrypoint 37
 * in the bscript for behaviour.
 *
 * All values are read dynamically from the source entity so that faxedit
 * can reorganize sprite data without breaking this patch.
 */
pub fn clone_sprite_1d_to_25(rom: &mut Rom)
    requires
        sprite_tables_fit(old(rom)@),
    ensures
        final(rom)@ == sprite_cloned(old(rom)@, 5),
{
    let ghost d = rom@;
    let ghost t = sprite_tables();
    assert(sprite_cloned(d, 0) == d);
    assert(cpu_fits(d, t[0].0, t[0].1 + SOURCE_ENTITY * t[0].2, t[0].2));
    assert(cpu_fits(d, t[1].0, t[1].1 + SOURCE_ENTITY * t[1].2, t[1].2));
    assert(cpu_fits(d, t[2].0, t[2].1 + SOURCE_ENTITY * t[2].2, t[2].2));
    assert(cpu_fits(d, t[3].0, t[3].1 + SOURCE_ENTITY * t[3].2, t[3].2));
    assert(cpu_fits(d, t[4].0, t[4].1 + SOURCE_ENTITY * t[4].2, t[4].2));

    // 1. Copy sprite update handler pointer (Bank 14, 2 bytes per entry).
    copy_word(rom, 14, SPRITE_UPDATE_HANDLERS + SOURCE_ENTITY * 2, SPRITE_UPDATE_HANDLERS + TARGET_ENTITY * 2);
    assert(rom@ == sprite_cloned(d, 1));

    // 2. Copy CHR tile data pointer (Bank 6, 2 bytes per entry).
    copy_word(rom, 6, BANK6_SPRITEADDRS_START + SOURCE_ENTITY * 2, BANK6_SPRITEADDRS_START + TARGET_ENTITY * 2);
    assert(rom@ == sprite_cloned(d, 2));

    // 3. Copy sprite appearance phase offset (Bank 14, 1 byte per entry).
    copy_byte(rom, 14, SPRITE_APPEARANCE_PHASE_OFFSETS + SOURCE_ENTITY, SPRITE_APPEARANCE_PHASE_OFFSETS + TARGET_ENTITY);
    assert(rom@ == sprite_cloned(d, 3));

    // 4. Copy PPU tile count (Bank 15, 1 byte per entry).
    copy_byte(rom, 15, SPRITES_PPU_TILE_COUNTS + SOURCE_ENTITY, SPRITES_PPU_TILE_COUNTS + TARGET_ENTITY);
    assert(rom@ == sprite_cloned(d, 4));

    // 5. Copy rendering flag (Bank 14, 1 byte per entry).
    copy_byte(rom, 14, SPRITE_RENDERING_FLAGS + SOURCE_ENTITY, SPRITE_RENDERING_FLAGS + TARGET_ENTITY);
}

} // verus!
