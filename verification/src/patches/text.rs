use vstd::prelude::*;

use crate::allocator::{after_alloc, can_alloc, FreeSpaceAllocator};
use crate::consts::{jsr_bytes, jsr_seq};
use crate::rom::{cpu_fits, lemma_write_same_layout, write_cpu, Rom};

pub mod dialog;
pub mod title_screen;

verus! {

broadcast use lemma_write_same_layout;

/// New code: set TextBox_PlayTextSound to 1 when timer bit 1 is clear, 0 when set,
/// keeping the text sound at its original 4-frame cadence.
pub const TEXT_SOUND_CODE: [u8; 12] = [
    0xAD, 0x1D, 0x02,       // LDA $021D        ; a:TextBox_Timer
    0x29, 0x02,             // AND #$02         ; isolate bit 1
    0x4A,                   // LSR A            ; 0→0, 2→1
    0x49, 0x01,             // EOR #$01         ; 0→1, 1→0
    0x8D, 0x12, 0x02,       // STA $0212        ; a:TextBox_PlayTextSound
    0x60,                   // RTS
];

/*
 * Faster Text
 *
 * This speeds up the game text but also has a side-effect of the sound made
 * when text is scrolling being different.
 */
pub fn faster_text(rom: &mut Rom)
    requires
        cpu_fits(old(rom)@, 15, 0xF49F, 1),
    ensures
        final(rom)@ == write_cpu(old(rom)@, 15, 0xF49F, seq![0x01u8]),
{
    // Change the AND mask in Maybe_TextBox_ShowCurrentMessageID
    // from #$03 (every 4 frames) to #$01 (every 2 frames)
    // side effect: SFX changes
    let stub: [u8; 1] = [0x01];
    assert(stub@ =~= seq![0x01u8]);
    let off = rom.cpu_to_file_offset(15, 0xF49F);
    rom.write_bytes(off, &stub);
}

/*
 * Faster Text v2
 *
 * This speeds up the game text without any sfx changes, but does require new code to do so.
 */
pub fn faster_text_v2(rom: &mut Rom, alloc: &mut FreeSpaceAllocator)
    requires
        can_alloc(old(alloc)@, 15, 12),
        cpu_fits(old(rom)@, 15, 0xF49F, 1),
        cpu_fits(old(rom)@, 15, old(alloc)@[15].next as int, 12),
        cpu_fits(old(rom)@, 15, 0xF472, 5),
    ensures
        final(alloc)@ == after_alloc(old(alloc)@, 15, 12),
        final(rom)@ == write_cpu(
            write_cpu(
                write_cpu(old(rom)@, 15, 0xF49F, seq![0x01u8]),
                15,
                old(alloc)@[15].next as int,
                TEXT_SOUND_CODE@,
            ),
            15,
            0xF472,
            jsr_seq(old(alloc)@[15].next) + seq![0xEAu8, 0xEA],
        ),
{
    // Change AND mask from #$03 to #$01 (display char every 2 frames)
    let stub: [u8; 1] = [0x01];
    assert(stub@ =~= seq![0x01u8]);
    let off = rom.cpu_to_file_offset(15, 0xF49F);
    rom.write_bytes(off, &stub);

    let code = TEXT_SOUND_CODE;
    let addr = alloc.allocate(15, code.len());
    let off = rom.cpu_to_file_offset(15, addr);
    rom.write_bytes(off, &code);

    // Replace "LDA #$01 / STA TextBox_PlayTextSound" with JSR to new code + NOPs
    let hook: [u8; 5] = [
        jsr_bytes(addr)[0], jsr_bytes(addr)[1], jsr_bytes(addr)[2],
        0xEA, 0xEA,             // NOP NOP
    ];
    assert(hook@ =~= jsr_seq(addr) + seq![0xEAu8, 0xEA]);
    let off = rom.cpu_to_file_offset(15, 0xF472);
    rom.write_bytes(off, &hook);
}

/// The title-screen tile for character `ch`: space, digits, capital letters and `c`
/// (the copyright sign) have tiles; everything else is drawn as a space.
pub open spec fn title_code(ch: char) -> u8 {
    let c = ch as int;
    if c == 0x20 {
        0x20
    } else if 0x30 <= c <= 0x39 {
        (0xD6 + (c - 0x30)) as u8
    } else if 0x41 <= c <= 0x5A {
        (0xE0 + (c - 0x41)) as u8
    } else if c == 0x63 {
        0xFA
    } else {
        0x20
    }
}

/// Maps characters to title-screen tiles.
pub struct TitleDict;

impl TitleDict {
    pub fn new() -> Self {
        TitleDict
    }

    pub fn encode(&self, ch: char) -> (r: u8)
        ensures
            r == title_code(ch),
    {
        let c = ch as u32;
        if c == 0x20 {
            0x20
        } else if c >= 0x30 && c <= 0x39 {
            0xD6 + (c - 0x30) as u8
        } else if c >= 0x41 && c <= 0x5A {
            0xE0 + (c - 0x41) as u8
        } else if c == 0x63 {
            0xFA  // copyright
        } else {
            0x20  // for unsupported characters, fall back to space
        }
    }
}

} // verus!
