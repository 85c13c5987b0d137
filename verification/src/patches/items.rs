use vstd::prelude::*;

use crate::allocator::{after_alloc, can_alloc, regions_wf, BankRegion, FreeSpaceAllocator};
use crate::consts::{hi, hi_byte, jmp_bytes, jmp_seq, jsr_bytes, jsr_seq, lo, lo_byte};
use crate::rom::{
    cpu_fits, file_offset, lemma_write_outside_keeps, lemma_write_same_layout, same_layout, write_cpu,
    Rom,
};

verus! {

broadcast use lemma_write_same_layout;

/// New code: consume the Mana Potion, show its dialog and fill MP.
pub const MANA_POTION_CODE: [u8; 25] = [
    0xAD, 0xC1, 0x03,           // LDA $03C1        ; a:SelectedItem
    0xC9, 0x11,                 // CMP #$11         ; Black Potion (Mana Potion)?
    0xD0, 0x0E,                 // BNE +14          ; @skip
    0xA9, 0x58,                 // LDA #$58         ; IScript entrypoint 88 (decimal) for dialog
    0x20, 0x59, 0xF8,           // JSR $F859        ; MMC1_LoadBankAndJump
    0x0C,                       //   bank 12
    0x41, 0x82,                 //   IScripts_Begin - 1
    0x20, 0x06, 0xC5,           // JSR $C506        ; @_fillMPLoop (MP fill + sfx)
    0x20, 0xBF, 0xC4,           // JSR $C4BF        ; Player_ClearSelectedItem
                                // @skip:
    0xAD, 0xC1, 0x03,           // LDA $03C1        ; a:SelectedItem
    0x60,                       // RTS
];

/// Overwrites the tail of the poison pickup handler.
pub const POISON_TO_BLACK_POTION_STUB: [u8; 10] = [
    /* LDA */ 0x08,             // #$08   ; (LDA fallthrough from @_afterFarJump)
    0x20, 0xE4, 0xD0,           // JSR $D0E4        ; Sound_PlayEffect
    0xAE, 0x03, 0x78,           // LDX $7803        ; a:????
    0x60,                       // RTS
    0xEA, 0xEA,                 // NOP NOP          ; probably unnecessary
];

/// Bank 14 part of the Fire Crystal: flash the screen and deal 50 damage to every enemy.
/// Bytes 65..68 are a placeholder for `JMP @next`, patched once the address is known.
pub const FIRE_CRYSTAL_DAMAGE_CODE: [u8; 96] = [
    // FireCrystal_DamageAllEnemies:

    // Flash the screen (greyscale on)
    0xA5, 0x0B,                      // LDA $0B          ; PPU_Mask
    0x09, 0x01,                      // ORA #$01         ; set greyscale bit
    0x85, 0x0B,                      // STA $0B          ; PPU_Mask

    // Damage loop
    0xA2, 0x07,                      // LDX #$07         ; 8 sprite slots
                                     // @loop:
    0x8E, 0x78, 0x03,                // STX $0378        ; a:CurrentSpriteIndex
    0xBD, 0xCC, 0x02,                // LDA $02CC,X      ; a:CurrentSprites_Entities
    0x30, 0x37,                      // BMI +55          ; @next (empty slot)
    0xC9, 0xFF,                      // CMP #$FF         ; invalid?
    0xF0, 0x33,                      // BEQ +51          ; @next
    0xA8,                            // TAY              ; Y = entity type
    0xB9, 0x44, 0xB5,                // LDA $B544,Y      ; a:SPRITE_CATEGORIES_BY_ENTITY
    0xF0, 0x04,                      // BEQ +4           ; @isEnemy (category 0 = standard)
    0xC9, 0x07,                      // CMP #$07         ; big enemy?
    0xD0, 0x29,                      // BNE +41          ; @next (not an enemy)
                                     // @isEnemy:
    0xBD, 0x44, 0x03,                // LDA $0344,X      ; a:CurrentSprites_HP
    0x38,                            // SEC
    0xE9, 0x32,                      // SBC #$32         ; -50 damage
    0x9D, 0x44, 0x03,                // STA $0344,X      ; store new HP
    0xB0, 0x1E,                      // BCS +30          ; @next (survived)
                                     // @died:
    0x20, 0x87, 0x8B,                // JSR $8B87        ; Player_AddExperienceFromSprite
    0xA9, 0x03,                      // LDA #$03         ; death sound
    0x20, 0xE4, 0xD0,                // JSR $D0E4        ; Sound_PlayEffect
    0xAE, 0x78, 0x03,                // LDX $0378        ; reload X
    0xBC, 0xCC, 0x02,                // LDY $02CC,X      ; reload entity type
    0xB9, 0x44, 0xB5,                // LDA $B544,Y      ; a:SPRITE_CATEGORIES_BY_ENTITY
    0xC9, 0x07,                      // CMP #$07         ; big enemy?
    0xD0, 0x06,                      // BNE +6           ; @smallDeath
    0x20, 0xEC, 0xAB,                // JSR $ABEC        ; Sprite_ShowBigEnemyDeathByMagicOrWeapon
    0x4C, 0x00, 0x00,                // JMP @next        ; (placeholder, patched below)
                                     // @smallDeath:
    0x20, 0xF6, 0xAB,                // JSR $ABF6        ; Sprite_ShowNormalEnemyDeathByMagic
                                     // @next:
    0xAE, 0x78, 0x03,                // LDX $0378        ; reload X from CurrentSpriteIndex
    0xCA,                            // DEX
    0x10, 0xBB,                      // BPL -69          ; @loop

    // Hold the flash for 2 frames so it's visible
    0x20, 0x25, 0xCA,               // JSR $CA25        ; WaitForNextFrame
    0x20, 0xA8, 0xCB,               // JSR $CBA8        ; Sprites_FlipRanges
    0x20, 0x25, 0xCA,               // JSR $CA25        ; WaitForNextFrame
    0x20, 0xA8, 0xCB,               // JSR $CBA8        ; Sprites_FlipRanges

    // Clear the flash (greyscale off)
    0xA5, 0x0B,                      // LDA $0B          ; PPU_Mask
    0x29, 0xFE,                      // AND #$FE         ; clear greyscale bit
    0x85, 0x0B,                      // STA $0B          ; PPU_Mask

    0x60,                            // RTS
];

/// Bank 15 part of the Fire Crystal: dispatch on the selected item, chaining to the
/// Mana Potion handler at `mana` for anything else, and far-call the damage code whose
/// entry minus one is `entry_m1`.
pub open spec fn fire_crystal_dispatch(mana: u16, entry_m1: u16) -> Seq<u8> {
    seq![
        0xADu8, 0xC1, 0x03,  // LDA $03C1
        0xC9, 0x15,  // CMP #$15 ; Fire Crystal?
        0xF0, 0x03,  // BEQ +3
        0x4C, lo(mana as int), hi(mana as int),  // JMP mana_handler
        0x68,  // PLA
        0x68,  // PLA
        0xA9, 0x76,  // LDA #$76 ; IScript 118
        0x20, 0x59, 0xF8,  // JSR $F859
        0x0C,  // BANK_12_LOGIC
        0x41, 0x82,  // IScripts_Begin-1
        0x20, 0xBF, 0xC4,  // JSR $C4BF
        0xA9, 0x1A,  // LDA #$1A
        0x20, 0xE4, 0xD0,  // JSR $D0E4
        0x20, 0x59, 0xF8,  // JSR $F859
        0x0E,  // BANK_14_LOGIC
        lo(entry_m1 as int), hi(entry_m1 as int),
        0x60,  // RTS
    ]
}

/// Where 6502 code that starts `LDA abs` (3 bytes), `CMP #imm` (2 bytes) and a relative
/// branch (2 bytes) goes on once the branch has run, when the loaded byte is `v`: past the
/// branch (offset 7), or to the branch target when the branch is taken. The compare sets
/// Z when `v` equals the operand, C when `v` is at least the operand, and N from bit 7 of
/// `v` minus the operand; BEQ/BNE test Z, BCS/BCC test C, BMI/BPL test N.
pub open spec fn after_compare_branch(code: Seq<u8>, v: u8) -> int {
    let m = code[4];
    let z = v == m;
    let c = v >= m;
    let n = ((v - m + 256) % 256) >= 0x80;
    let taken = if code[5] == 0xF0 {
        z
    } else if code[5] == 0xD0 {
        !z
    } else if code[5] == 0xB0 {
        c
    } else if code[5] == 0x90 {
        !c
    } else if code[5] == 0x30 {
        n
    } else if code[5] == 0x10 {
        !n
    } else {
        false
    };
    if taken {
        7 + (if code[6] < 0x80 {
            code[6] as int
        } else {
            code[6] - 256
        })
    } else {
        7
    }
}

/// The Fire Crystal dispatch acts only for the Fire Crystal. It loads the selected item
/// ($03C1) and compares it with $15: with the Fire Crystal selected, execution goes on at
/// the handler (two PLAs dropping the hook's return address, then the far calls that end
/// in the bank-14 damage code at `entry_m1 + 1`); with any other item it reaches
/// `JMP mana`, the Mana Potion check.
pub proof fn lemma_fire_crystal_dispatch_selects(mana: u16, entry_m1: u16, item: u8)
    ensures
        ({
            let c = fire_crystal_dispatch(mana, entry_m1);
            &&& c.len() == 35
            &&& c.subrange(0, 3) == seq![0xADu8, 0xC1, 0x03]
            &&& c[3] == 0xC9
            &&& item == 0x15 ==> after_compare_branch(c, item) == 10 && c.subrange(10, 12) == seq![
                0x68u8,
                0x68,
            ] && c.subrange(28, 35) == seq![
                0x20u8,
                0x59,
                0xF8,
                0x0E,
                lo(entry_m1 as int),
                hi(entry_m1 as int),
                0x60,
            ]
            &&& item != 0x15 ==> after_compare_branch(c, item) == 7 && c.subrange(7, 10) == seq![
                0x4Cu8,
                lo(mana as int),
                hi(mana as int),
            ]
        }),
{
    let c = fire_crystal_dispatch(mana, entry_m1);
    assert(c.subrange(0, 3) =~= seq![0xADu8, 0xC1, 0x03]);
    assert(c.subrange(10, 12) =~= seq![0x68u8, 0x68]);
    assert(c.subrange(28, 35) =~= seq![0x20u8, 0x59, 0xF8, 0x0E, lo(entry_m1 as int), hi(entry_m1 as int), 0x60]);
    assert(c.subrange(7, 10) =~= seq![0x4Cu8, lo(mana as int), hi(mana as int)]);
}

/// New code: the Crystal warps the player to their spawn point.
pub const CRYSTAL_WARP_CODE: [u8; 31] = [
    // Player_UseCrystal:

    // Show textbox dialog via IScript.
    0xA9, 0x77,                              // LDA #$77         ; IScript ID 119 (change this if you need to!)
    0x20, 0x59, 0xF8,                        // JSR $F859        ; MMC1_LoadBankAndJump
    0x0C,                                    //   .byte $0C      ;   BANK_12_LOGIC
    0x41, 0x82,                              //   .word $8241    ;   IScripts_Begin-1
    0xA9, 0x0A,                              // LDA #$0A         ; SFX Ref
    0x20, 0xE4, 0xD0,                        // JSR $D0E4        ; SFX Execute

    0x20, 0xBF, 0xC4,                        // JSR $C4BF        ; Player_ClearSelectedItem
    0x20, 0x2F, 0xDA,                        // JSR $DA2F        ; Screen_FadeToBlack
    0x20, 0x7D, 0xDA,                        // JSR $DA7D        ; Game_InitStateForSpawn
    0x20, 0x61, 0xDD,                        // JSR $DD61        ; Game_SpawnInTemple
    0x20, 0xAF, 0xDA,                        // JSR $DAAF        ; Game_SetupEnterBuilding
    0x4C, 0x45, 0xDB,                        // JMP $DB45        ; Game_MainLoop
];

/// New code: entity 0x4C picks up a Crystal, the other poisons stay poisons.
pub const CRYSTAL_PICKUP_CODE: [u8; 43] = [
    // CrystalOrPoisonDispatch:
    0xAE, 0x78, 0x03,       // LDX $0378        ; CurrentSpriteIndex
    0xBD, 0xCC, 0x02,       // LDA $02CC,X      ; CurrentSprites_Entities[X]
    0xC9, 0x4C,             // CMP #$4C         ; Poison_2 = Crystal?
    0xF0, 0x0B,             // BEQ +11          ; @crystal

    // --- Poison path ---
    0xA9, 0x91,             // LDA #$91         ; Poison IScript
    0x20, 0x59, 0xF8,       // JSR $F859        ; MMC1_LoadBankAndJump
    0x0C,                   //   .byte $0C      ;   BANK_12_LOGIC
    0x41, 0x82,             //   .word $8241    ;   IScripts_Begin-1
    0x4C, 0x44, 0xC8,       // JMP $C844        ; after IScript (poison_to_black_potion)

    // @crystal:
    0xA9, 0x6C,             // LDA #$6C         ; IScript 108 — Crystal pickup dialog
    0x20, 0x59, 0xF8,       // JSR $F859        ; MMC1_LoadBankAndJump
    0x0C,                   //   .byte $0C      ;   BANK_12_LOGIC
    0x41, 0x82,             //   .word $8241    ;   IScripts_Begin-1
    0xA9, 0x08,             // LDA #$08         ; item pickup SFX
    0x20, 0xE4, 0xD0,       // JSR $D0E4        ; Sound_PlayEffect
    0xA9, 0x0B,             // LDA #$0B         ; ITEMINVENTORY_CRYSTAL
    0x20, 0xCD, 0xC8,       // JSR $C8CD        ; Player_PickUpItem
    0xAE, 0x78, 0x03,       // LDX $0378        ; restore CurrentSpriteIndex
    0x60,                   // RTS
];

/// Crystal CHR tiles (4 tiles x 16 bytes), from the shop icon in PRG10 $8620-$865F.
pub const CRYSTAL_TILES: [u8; 64] = [
    // Tile $12 (top-left)
    0x03, 0x04, 0x08, 0x16, 0x1C, 0x50, 0x40, 0x62,
    0x00, 0x00, 0x00, 0x06, 0x04, 0x40, 0x50, 0x6D,
    // Tile $13 (top-right)
    0xC0, 0x20, 0x10, 0x08, 0x08, 0x0A, 0x1A, 0xB6,
    0x00, 0x00, 0x00, 0x00, 0x00, 0x02, 0x02, 0x46,
    // Tile $14 (bottom-left)
    0x30, 0x1F, 0x06, 0x01, 0x07, 0x0F, 0x07, 0x00,
    0x72, 0x3F, 0x0E, 0x01, 0x01, 0x08, 0x07, 0x00,
    // Tile $15 (bottom-right)
    0x0C, 0xF8, 0x60, 0x00, 0x20, 0xF0, 0xE0, 0x00,
    0x9C, 0xF8, 0x70, 0x00, 0x00, 0x10, 0xE0, 0x00,
];

/// 2x2 TILEINFO layout, palette 1 for each tile.
pub const CRYSTAL_TILEINFO: [u8; 12] = [
    0x11,                   // 2 rows, 2 columns
    0x00,                   // X offset = 0
    0x00,                   // Y offset = 0
    0x08,                   // Flipped front-of-entity X = 8
    0x00, 0x01,             // Tile 0, palette 1
    0x01, 0x01,             // Tile 1, palette 1
    0x02, 0x01,             // Tile 2, palette 1
    0x03, 0x01,             // Tile 3, palette 1
];

/// New code: entity 0x4B picks up a Fire Crystal, the other red potions stay potions.
pub const FIRE_CRYSTAL_PICKUP_CODE: [u8; 43] = [
    // FireCrystalOrRedPotionDispatch:
    0xAE, 0x78, 0x03,       // LDX $0378        ; CurrentSpriteIndex
    0xBD, 0xCC, 0x02,       // LDA $02CC,X      ; CurrentSprites_Entities[X]
    0xC9, 0x4B,             // CMP #$4B         ; Red Potion 2 = Fire Crystal?
    0xF0, 0x0B,             // BEQ +11          ; @fireCrystal

    // --- Red Potion path ---
    0xA9, 0x87,             // LDA #$87         ; Red Potion IScript
    0x20, 0x59, 0xF8,       // JSR $F859        ; MMC1_LoadBankAndJump
    0x0C,                   //   .byte $0C      ;   BANK_12_LOGIC
    0x41, 0x82,             //   .word $8241    ;   IScripts_Begin-1
    0x4C, 0x2E, 0xC8,       // JMP $C82E        ; after IScript (original handler)

    // @fireCrystal:
    0xA9, 0x6B,             // LDA #$6B         ; IScript 107 — Fire Crystal dialog
    0x20, 0x59, 0xF8,       // JSR $F859        ; MMC1_LoadBankAndJump
    0x0C,                   //   .byte $0C      ;   BANK_12_LOGIC
    0x41, 0x82,             //   .word $8241    ;   IScripts_Begin-1
    0xA9, 0x08,             // LDA #$08         ; item pickup SFX
    0x20, 0xE4, 0xD0,       // JSR $D0E4        ; Sound_PlayEffect
    0xA9, 0x15,             // LDA #$15         ; ITEMINVENTORY_FIRE_CRYSTAL
    0x20, 0xCD, 0xC8,       // JSR $C8CD        ; Player_PickUpItem
    0xAE, 0x78, 0x03,       // LDX $0378        ; restore CurrentSpriteIndex
    0x60,                   // RTS
];

/// Fire Crystal CHR tiles (4 tiles x 16 bytes), from PRG10 $8900-$893F.
pub const FIRE_CRYSTAL_TILES: [u8; 64] = [
    // Tile 1
    0x01, 0x03, 0x07, 0x0E, 0x1D, 0x3B, 0x77, 0x3B,
    0x00, 0x01, 0x03, 0x06, 0x0D, 0x1B, 0x37, 0x1B,

    // Tile 2
    0x80, 0x40, 0x20, 0x10, 0x88, 0xC4, 0xE2, 0xC0,
    0x00, 0x00, 0x00, 0x00, 0x80, 0xC0, 0xE0, 0xDC,

    // Tile 3
    0x1D, 0x0E, 0x07, 0x03, 0x01, 0x16, 0x10, 0x00,
    0x0D, 0x06, 0x03, 0x01, 0x00, 0x0F, 0x0F, 0x00,

    // Tile 4
    0x80, 0x00, 0x00, 0x00, 0x00, 0x98, 0x18, 0x00,
    0xB8, 0x70, 0xE0, 0xC0, 0x80, 0xE0, 0xE0, 0x00,
];

/// `JMP addr` followed by five NOPs.
pub open spec fn jmp_hook8(addr: u16) -> Seq<u8> {
    jmp_seq(addr) + seq![0xEAu8, 0xEA, 0xEA, 0xEA, 0xEA]
}

/// The image after the Mana Potion patch, with its handler at `addr`.
pub open spec fn mana_potion_patched(d: Seq<u8>, addr: u16) -> Seq<u8> {
    write_cpu(write_cpu(d, 15, addr as int, MANA_POTION_CODE@), 15, 0xC48B, jsr_seq(addr))
}

/*
 * Add Mana Potion
 *
 * Originally in the unused game code a Black Potion was present. This potion
 * was part of other Dragon Slayer games and used as a means of restoring Karma,
 * which is a player stat that is not part of Faxanadu.
 *
 * This patch uses this potion as refill for the "Magic meter", which is essentially
 * Mana Points, to use Final Fantasy terms.
 *
 * Originally written by Notlob for Randumizer.
 */
/// Returns the CPU address of the handler so other patches can chain to it.
pub fn black_potion_to_mana_potion(rom: &mut Rom, alloc: &mut FreeSpaceAllocator) -> (r: u16)
    requires
        can_alloc(old(alloc)@, 15, 25),
        cpu_fits(old(rom)@, 15, old(alloc)@[15].next as int, 25),
        cpu_fits(old(rom)@, 15, 0xC48B, 3),
    ensures
        r == old(alloc)@[15].next,
        final(alloc)@ == after_alloc(old(alloc)@, 15, 25),
        final(rom)@ == mana_potion_patched(old(rom)@, r),
{
    // newcode: consume Mana Potion, show dialog, and fill MP
    let code = MANA_POTION_CODE;
    let addr = alloc.allocate(15, code.len());
    let off = rom.cpu_to_file_offset(15, addr);
    rom.write_bytes(off, &code);

    // Hook $C48B — but fire_crystal_screen_damage will overwrite this if it runs later.
    // That's OK as long as fire_crystal_screen_damage chains back to us.
    let off = rom.cpu_to_file_offset(15, 0xC48B);
    rom.write_bytes(off, &jsr_bytes(addr));
    addr
}

/*
 * Poison to Black Potion
 *
 * In the original game, potion-like icons were used to represent poisons in the overworld.
 * There was also an unimplemented item called "Black Potion". This patch allows you to
 * repurpose poison "pickups" for Black Potion instead.
 *
 * Original code by Notlob for Randumizer
 */
pub fn poison_to_black_potion(rom: &mut Rom)
    requires
        cpu_fits(old(rom)@, 15, 0xC845, 10),
    ensures
        final(rom)@ == write_cpu(old(rom)@, 15, 0xC845, POISON_TO_BLACK_POTION_STUB@),
{
    let stub = POISON_TO_BLACK_POTION_STUB;
    let off = rom.cpu_to_file_offset(15, 0xC845);
    rom.write_bytes(off, &stub);
}

/// What the Fire Crystal damage patch requires of the image and the allocator.
pub open spec fn fire_crystal_damage_ok(d: Seq<u8>, m: Map<usize, BankRegion>) -> bool {
    &&& can_alloc(m, 14, 96)
    &&& can_alloc(m, 15, 35)
    &&& cpu_fits(d, 14, m[14].next as int, 96)
    &&& cpu_fits(d, 14, m[14].next + 65, 3)
    &&& cpu_fits(d, 15, m[15].next as int, 35)
    &&& cpu_fits(d, 15, 0xC48B, 3)
}

/// The image after the Fire Crystal damage patch, with its bank 14 code at `a14`, its
/// bank 15 code at `a15`, chaining to the Mana Potion handler at `mana`.
pub open spec fn fire_crystal_damage_patched(d: Seq<u8>, a14: u16, a15: u16, mana: u16) -> Seq<u8> {
    let d1 = write_cpu(d, 14, a14 as int, FIRE_CRYSTAL_DAMAGE_CODE@);
    let d2 = write_cpu(d1, 14, a14 + 65, jmp_seq((a14 + 71) as u16));
    let d3 = write_cpu(d2, 15, a15 as int, fire_crystal_dispatch(mana, (a14 - 1) as u16));
    write_cpu(d3, 15, 0xC48B, jsr_seq(a15))
}

/*
 * Fire Crystal as a Screen-Wide Damage Item
 *
 * This adds the previously unused Fire Crystal as a "screenwide damage"
 * item, giving the player an option that is much like Sugata's attack.
 *
 * Presently it does 50 damage, this is adjustable as noted in the code
 * comments.
 *
 * Bank 15: dispatch hook + handler
 * Bank 14: damage loop + death handling
 */
pub fn fire_crystal_screen_damage(rom: &mut Rom, alloc: &mut FreeSpaceAllocator, mana_handler: u16)
    requires
        fire_crystal_damage_ok(old(rom)@, old(alloc)@),
    ensures
        final(alloc)@ == after_alloc(after_alloc(old(alloc)@, 14, 96), 15, 35),
        final(rom)@ == fire_crystal_damage_patched(
            old(rom)@,
            old(alloc)@[14].next,
            old(alloc)@[15].next,
            mana_handler,
        ),
{
    let b14_code = FIRE_CRYSTAL_DAMAGE_CODE;
    let b14_addr = alloc.allocate(14, b14_code.len());
    let off = rom.cpu_to_file_offset(14, b14_addr);
    rom.write_bytes(off, &b14_code);

    // Patch the JMP @next placeholder (offset 65-67 within the block)
    // @next is at offset 71 from the start of the block
    let next_addr = b14_addr + 71;
    let jmp_next = jmp_bytes(next_addr);
    let off = rom.cpu_to_file_offset(14, b14_addr + 65);
    rom.write_bytes(off, &jmp_next);

    let b14_entry_minus1 = b14_addr - 1;
    let b15_code: [u8; 35] = [
        // FireCrystal_DispatchCheck:
        0xAD, 0xC1, 0x03,                // LDA $03C1        ; a:SelectedItem
        0xC9, 0x15,                      // CMP #$15         ; Fire Crystal?
        0xF0, 0x03,                      // BEQ +3           ; @isFireCrystal
        0x4C,                            // JMP mana_handler  ; chain to Mana Potion check
        lo_byte(mana_handler),
        hi_byte(mana_handler),
                                         // @isFireCrystal:
        0x68,                            // PLA              ; discard JSR return (low)
        0x68,                            // PLA              ; discard JSR return (high)

        // Player_UseFireCrystal:

        // Show textbox dialog via IScript.
        0xA9, 0x76,                      // LDA #$76         ; IScript ID 118 (change this if you need to!)
        0x20, 0x59, 0xF8,                // JSR $F859        ; MMC1_LoadBankAndJump
        0x0C,                            //   .byte $0C      ;   BANK_12_LOGIC
        0x41, 0x82,                      //   .word $8241    ;   IScripts_Begin-1

        0x20, 0xBF, 0xC4,                // JSR $C4BF        ; Player_ClearSelectedItem
        0xA9, 0x1A,                      // LDA #$1A         ; item use sound
        0x20, 0xE4, 0xD0,                // JSR $D0E4        ; Sound_PlayEffect
        0x20, 0x59, 0xF8,                // JSR $F859        ; MMC1_LoadBankAndJump
        0x0E,                            //   .byte $0E      ;   BANK_14_LOGIC
        lo_byte(b14_entry_minus1),       //   .word lo       ;   FireCrystal_DamageAllEnemies-1
        hi_byte(b14_entry_minus1),       //   .word hi
        0x60,                            // RTS
    ];
    assert(b15_code@ =~= fire_crystal_dispatch(mana_handler, b14_entry_minus1));

    let b15_addr = alloc.allocate(15, b15_code.len());
    let off = rom.cpu_to_file_offset(15, b15_addr);
    rom.write_bytes(off, &b15_code);

    // Patch: replace "LDA a:SelectedItem" at $C48B with JSR to our dispatch check
    let off = rom.cpu_to_file_offset(15, 0xC48B);
    rom.write_bytes(off, &jsr_bytes(b15_addr));
}

/// Installing the Fire Crystal after the Mana Potion keeps the Mana Potion working: its
/// code stays where it was put, the hook at $C48B now calls the Fire Crystal dispatch,
/// and that dispatch jumps to the Mana Potion handler for every other item. This holds
/// when the free range of bank 14 lies in the switchable window and that of bank 15
/// lies above the hook.
pub proof fn lemma_fire_crystal_chains_to_mana_potion(d: Seq<u8>, m: Map<usize, BankRegion>)
    requires
        regions_wf(m),
        can_alloc(m, 15, 25),
        cpu_fits(d, 15, m[15].next as int, 25),
        cpu_fits(d, 15, 0xC48B, 3),
        fire_crystal_damage_ok(mana_potion_patched(d, m[15].next), after_alloc(m, 15, 25)),
        m[14].end <= 0xC000,
        m[15].start >= 0xC48E,
    ensures
        ({
            let h = m[15].next;
            let m1 = after_alloc(m, 15, 25);
            let d1 = mana_potion_patched(d, h);
            let d2 = fire_crystal_damage_patched(d1, m1[14].next, m1[15].next, h);
            let oh = file_offset(d, 15, h as int);
            let od = file_offset(d, 15, m1[15].next as int);
            let ok = file_offset(d, 15, 0xC48B);
            &&& d2.subrange(oh, oh + 25) == MANA_POTION_CODE@
            &&& d2.subrange(ok, ok + 3) == jsr_seq(m1[15].next)
            &&& d2.subrange(od + 7, od + 10) == jmp_seq(h)
        }),
{
    let h = m[15].next;
    let m1 = after_alloc(m, 15, 25);
    let a14 = m1[14].next;
    let a15 = m1[15].next;
    assert(a15 == h + 25);
    let oh = file_offset(d, 15, h as int);
    let ok = file_offset(d, 15, 0xC48B);
    let od = file_offset(d, 15, a15 as int);
    let w0 = write_cpu(d, 15, h as int, MANA_POTION_CODE@);
    let d1 = mana_potion_patched(d, h);
    assert(d1.subrange(oh, oh + 25) == MANA_POTION_CODE@) by {
        assert(w0.subrange(oh, oh + 25) =~= MANA_POTION_CODE@);
        lemma_write_outside_keeps(w0, ok, jsr_seq(h), oh, oh + 25);
    }
    let e1 = write_cpu(d1, 14, a14 as int, FIRE_CRYSTAL_DAMAGE_CODE@);
    let e2 = write_cpu(e1, 14, a14 + 65, jmp_seq((a14 + 71) as u16));
    let e3 = write_cpu(e2, 15, a15 as int, fire_crystal_dispatch(h, (a14 - 1) as u16));
    let e4 = write_cpu(e3, 15, 0xC48B, jsr_seq(a15));
    assert(file_offset(d1, 14, a14 as int) + 96 <= oh);
    lemma_write_outside_keeps(d1, file_offset(d1, 14, a14 as int), FIRE_CRYSTAL_DAMAGE_CODE@, oh, oh + 25);
    lemma_write_outside_keeps(e1, file_offset(e1, 14, a14 + 65), jmp_seq((a14 + 71) as u16), oh, oh + 25);
    lemma_write_outside_keeps(e2, file_offset(e2, 15, a15 as int), fire_crystal_dispatch(h, (a14 - 1) as u16), oh, oh + 25);
    lemma_write_outside_keeps(e3, file_offset(e3, 15, 0xC48B), jsr_seq(a15), oh, oh + 25);
    assert(e4.subrange(ok, ok + 3) =~= jsr_seq(a15));
    assert(e3.subrange(od + 7, od + 10) =~= jmp_seq(h));
    lemma_write_outside_keeps(e3, ok, jsr_seq(a15), od + 7, od + 10);
}

/*
 * Crystal as a Warp to Spawn Item
 *
 * This implements the unused Crystal as a "return to spawn" item, much like how it's used
 * in Legacy of the Wizard (Dragon Slayer IV).
 *
 * The player selects the item, then uses it with Down+B. They will appear at their spawn
 * point, just as if they had died except without losing XP or Golds, but also not recovering
 * mana or health. Also adds a sound effect.
 */
pub fn crystal_warp_to_spawn(rom: &mut Rom, alloc: &mut FreeSpaceAllocator)
    requires
        can_alloc(old(alloc)@, 15, 31),
        cpu_fits(old(rom)@, 15, old(alloc)@[15].next as int, 31),
        cpu_fits(old(rom)@, 15, 0xC4B3, 2),
    ensures
        final(alloc)@ == after_alloc(old(alloc)@, 15, 31),
        final(rom)@ == write_cpu(
            write_cpu(old(rom)@, 15, old(alloc)@[15].next as int, CRYSTAL_WARP_CODE@),
            15,
            0xC4B3,
            crate::consts::le16((old(alloc)@[15].next - 1) as u16),
        ),
{
    let code = CRYSTAL_WARP_CODE;
    let addr = alloc.allocate(15, code.len());
    let off = rom.cpu_to_file_offset(15, addr);
    rom.write_bytes(off, &code);

    // Patch USE_ITEM_JUMP_TABLE[11] (Crystal) to point to our handler.
    // Table entry is at $C49D + (11 * 2) = $C4B3.
    let target = addr - 1;
    let stub: [u8; 2] = [lo_byte(target), hi_byte(target)];
    assert(stub@ =~= crate::consts::le16(target));
    let off = rom.cpu_to_file_offset(15, 0xC4B3);
    rom.write_bytes(off, &stub);
}

/// What an overworld pickup patch requires: room for `code_len` bytes in bank 15 and
/// room at each fixed address it writes.
pub open spec fn crystal_pickup_ok(d: Seq<u8>, m: Map<usize, BankRegion>) -> bool {
    &&& can_alloc(m, 15, 43)
    &&& cpu_fits(d, 15, m[15].next as int, 43)
    &&& cpu_fits(d, 15, 0xC83C, 8)
    &&& cpu_fits(d, 7, 0x8C96, 64)
    &&& cpu_fits(d, 7, 0x9AB6, 12)
    &&& cpu_fits(d, 7, 0x8036, 2)
    &&& cpu_fits(d, 14, 0x8CEB, 1)
    &&& cpu_fits(d, 15, 0xCE67, 1)
}

/// The image after the Crystal pickup patch, with its dispatch code at `addr`.
pub open spec fn crystal_pickup_patched(d: Seq<u8>, addr: u16) -> Seq<u8> {
    let d1 = write_cpu(d, 15, addr as int, CRYSTAL_PICKUP_CODE@);
    let d2 = write_cpu(d1, 15, 0xC83C, jmp_hook8(addr));
    let d3 = write_cpu(d2, 7, 0x8C96, CRYSTAL_TILES@);
    let d4 = write_cpu(d3, 7, 0x9AB6, CRYSTAL_TILEINFO@);
    let d5 = write_cpu(d4, 7, 0x8036, seq![0x96u8, 0x0C]);
    let d6 = write_cpu(d5, 14, 0x8CEB, seq![0xD7u8]);
    write_cpu(d6, 15, 0xCE67, seq![0x04u8])
}

/*
 * Crystal as Overworld Pickup Item
 *
 * Reuses one of the poison sprite pickups as the Crystal instead.
 *
 * In fax-edit, place entity 0x4C (Poison, index 76) on screens where
 * you want Crystal pickups to appear.
 *
 * Side effects: In order to find space for this sprite, we replace some of the
 * unused Eyeball enemy sprites as we need space in the same bank.
 *
 * Note: The Crystal's use behavior (Down+B to warp) is handled separately by
 * crystal_warp_to_spawn.
 */
pub fn crystal_overworld_pickup(rom: &mut Rom, alloc: &mut FreeSpaceAllocator)
    requires
        crystal_pickup_ok(old(rom)@, old(alloc)@),
    ensures
        final(alloc)@ == after_alloc(old(alloc)@, 15, 43),
        final(rom)@ == crystal_pickup_patched(old(rom)@, old(alloc)@[15].next),
{
    let code = CRYSTAL_PICKUP_CODE;
    let addr = alloc.allocate(15, code.len());
    let off = rom.cpu_to_file_offset(15, addr);
    rom.write_bytes(off, &code);

    // Hook: replace Player_PickUpPoison entry at $C83C with JMP + NOPs.
    // Original bytes at $C83C are the IScript far-call (8 bytes):
    //   LDA #$91 / JSR $F859 / .byte $0C / .word $8241
    // We replace all 8 bytes with JMP <dispatch> + 5× NOP.
    let hook: [u8; 8] = [
        jmp_bytes(addr)[0], jmp_bytes(addr)[1], jmp_bytes(addr)[2],
        0xEA, 0xEA, 0xEA, 0xEA, 0xEA,
    ];
    assert(hook@ =~= jmp_hook8(addr));
    let off = rom.cpu_to_file_offset(15, 0xC83C);
    rom.write_bytes(off, &hook);

    // Sprite appearance: replace Poison tiles with Crystal icon.
    //
    // Entity 0x4C uses BANK7_SPRITEADDRS_START[21] for CHR tile data and
    // SPRITE_APPEARANCE_PHASE_OFFSETS[76] = $E0 for the TILEINFO layout.
    // Entity 0x5E (the other Poison) has separate table entries so changes
    // here only affect 0x4C.
    //
    // We overwrite the unused Eyeball enemy's CHR tiles ($8C96 in bank 7)
    // and TILEINFO ($9AB6) with Crystal graphics, then point 0x4C there.

    // 1. Write Crystal CHR tile data (4 tiles × 16 bytes = 64 bytes)
    //    overwriting the unused Eyeball tiles at bank 7 $8C96.
    let crystal_tiles = CRYSTAL_TILES;
    let off = rom.cpu_to_file_offset(7, 0x8C96);
    rom.write_bytes(off, &crystal_tiles);

    // 2. Overwrite Eyeball TILEINFO at $9AB6 with 2×2 Crystal layout.
    let crystal_tileinfo = CRYSTAL_TILEINFO;
    let off = rom.cpu_to_file_offset(7, 0x9AB6);
    rom.write_bytes(off, &crystal_tileinfo);

    // 3. BANK7_SPRITEADDRS_START[21] → $0C96 (Crystal tiles at $8C96)
    //    Entry at $800C + 21*2 = $8036.
    let ptr: [u8; 2] = [0x96, 0x0C];
    assert(ptr@ =~= seq![0x96u8, 0x0C]);
    let off = rom.cpu_to_file_offset(7, 0x8036);
    rom.write_bytes(off, &ptr);

    // 4. SPRITE_APPEARANCE_PHASE_OFFSETS[76] → $D7 (Eyeball TILEINFO index)
    //    Entry at $8C9F + 76 = $8CEB.
    let phase: [u8; 1] = [0xD7];
    assert(phase@ =~= seq![0xD7u8]);
    let off = rom.cpu_to_file_offset(14, 0x8CEB);
    rom.write_bytes(off, &phase);

    // 5. SPRITES_PPU_TILE_COUNTS[76] → $04 (4 tiles for 2×2 Crystal)
    //    Entry at $CE1B + 76 = $CE67.
    let count: [u8; 1] = [0x04];
    assert(count@ =~= seq![0x04u8]);
    let off = rom.cpu_to_file_offset(15, 0xCE67);
    rom.write_bytes(off, &count);
}

/// What the Fire Crystal pickup patch requires of the image and the allocator.
pub open spec fn fire_crystal_pickup_ok(d: Seq<u8>, m: Map<usize, BankRegion>) -> bool {
    &&& can_alloc(m, 15, 43)
    &&& cpu_fits(d, 15, m[15].next as int, 43)
    &&& cpu_fits(d, 15, 0xC826, 8)
    &&& cpu_fits(d, 7, 0x8CD6, 64)
    &&& cpu_fits(d, 7, 0x8034, 2)
    &&& cpu_fits(d, 14, 0x8CEA, 1)
    &&& cpu_fits(d, 15, 0xCE66, 1)
}

/// The image after the Fire Crystal pickup patch, with its dispatch code at `addr`.
pub open spec fn fire_crystal_pickup_patched(d: Seq<u8>, addr: u16) -> Seq<u8> {
    let d1 = write_cpu(d, 15, addr as int, FIRE_CRYSTAL_PICKUP_CODE@);
    let d2 = write_cpu(d1, 15, 0xC826, jmp_hook8(addr));
    let d3 = write_cpu(d2, 7, 0x8CD6, FIRE_CRYSTAL_TILES@);
    let d4 = write_cpu(d3, 7, 0x8034, seq![0xD6u8, 0x0C]);
    let d5 = write_cpu(d4, 14, 0x8CEA, seq![0xD7u8]);
    write_cpu(d5, 15, 0xCE66, seq![0x04u8])
}

/*
 * Fire Crystal as Overworld Pickup Item
 *
 * This repurposes the other Red Potion pickup as a Fire Crystal instead.
 *
 * In fax-edit, place entity 0x4B (Red Potion 2, decimal 75) on screens
 * where you want Fire Crystal pickups to appear. Entity 0x5D remains a
 * normal Red Potion.
 */
pub fn fire_crystal_overworld_pickup(rom: &mut Rom, alloc: &mut FreeSpaceAllocator)
    requires
        fire_crystal_pickup_ok(old(rom)@, old(alloc)@),
    ensures
        final(alloc)@ == after_alloc(old(alloc)@, 15, 43),
        final(rom)@ == fire_crystal_pickup_patched(old(rom)@, old(alloc)@[15].next),
{
    let code = FIRE_CRYSTAL_PICKUP_CODE;
    let addr = alloc.allocate(15, code.len());
    let off = rom.cpu_to_file_offset(15, addr);
    rom.write_bytes(off, &code);

    // Hook: replace Player_PickUpRedPotion entry at $C826 with JMP + NOPs.
    // Original bytes at $C826 are the IScript far-call (8 bytes):
    //   LDA #$87 / JSR $F859 / .byte $0C / .word $8241
    // We replace all 8 bytes with JMP <dispatch> + 5× NOP.
    let hook: [u8; 8] = [
        jmp_bytes(addr)[0], jmp_bytes(addr)[1], jmp_bytes(addr)[2],
        0xEA, 0xEA, 0xEA, 0xEA, 0xEA,
    ];
    assert(hook@ =~= jmp_hook8(addr));
    let off = rom.cpu_to_file_offset(15, 0xC826);
    rom.write_bytes(off, &hook);

    // Sprite appearance: replace Red Potion 2 tiles with Fire Crystal icon.
    //
    // Entity 0x4B (75) uses bank 7 (entity >= 0x37).
    // BANK7_SPRITEADDRS_START[75-55] = BANK7_SPRITEADDRS_START[20].
    //
    // Write Fire Crystal CHR tiles at bank 7 $8CD6 (after Crystal tiles
    // in the unused Eyeball space — Eyeball has 128 bytes, Crystal uses
    // 64, leaving 64 for Fire Crystal).
    //
    // Reuse the same 2×2 TILEINFO at $9AB6 (Eyeball overwrite, shared
    // with Crystal — palette 1, tiles 0-3).

    // 1. Write Fire Crystal CHR tile data (4 tiles × 16 bytes = 64 bytes)
    let fire_crystal_tiles = FIRE_CRYSTAL_TILES;
    let off = rom.cpu_to_file_offset(7, 0x8CD6);
    rom.write_bytes(off, &fire_crystal_tiles);

    // 2. BANK7_SPRITEADDRS_START[20] → $0CD6 (Fire Crystal tiles at $8CD6)
    //    Entry at $800C + 20*2 = $8034.
    let ptr: [u8; 2] = [0xD6, 0x0C];
    assert(ptr@ =~= seq![0xD6u8, 0x0C]);
    let off = rom.cpu_to_file_offset(7, 0x8034);
    rom.write_bytes(off, &ptr);

    // 3. SPRITE_APPEARANCE_PHASE_OFFSETS[75] → $D7 (Eyeball TILEINFO, same as Crystal)
    //    Entry at $8C9F + 75 = $8CEA.
    let phase: [u8; 1] = [0xD7];
    assert(phase@ =~= seq![0xD7u8]);
    let off = rom.cpu_to_file_offset(14, 0x8CEA);
    rom.write_bytes(off, &phase);

    // 4. SPRITES_PPU_TILE_COUNTS[75] → $04 (4 tiles for 2×2 Fire Crystal)
    //    Entry at $CE1B + 75 = $CE66.
    let count: [u8; 1] = [0x04];
    assert(count@ =~= seq![0x04u8]);
    let off = rom.cpu_to_file_offset(15, 0xCE66);
    rom.write_bytes(off, &count);
}


/// Whether the `n` bytes at `x` and the `k` bytes at `y` do not overlap.
pub open spec fn apart(x: int, n: int, y: int, k: int) -> bool {
    x + n <= y || y + k <= x
}

/// Installing the Fire Crystal pickup after the Crystal pickup keeps the Crystal pickup
/// whole: its dispatch code and hook, its tiles at bank 7 $8C96, the 2x2 tile layout at
/// $9AB6 that both items share, its tile pointer, its appearance entry and its tile
/// count are all still in place. This holds whenever no later write of the two patches
/// lands on an earlier one: the Crystal's dispatch block is clear of both hooks, both
/// tile counts and the Fire Crystal's block, and the Fire Crystal's block is clear of
/// the Crystal's hook and tile count.
#[verifier::rlimit(50)]
pub proof fn lemma_fire_crystal_keeps_crystal_pickup(d: Seq<u8>, m: Map<usize, BankRegion>)
    requires
        crystal_pickup_ok(d, m),
        fire_crystal_pickup_ok(crystal_pickup_patched(d, m[15].next), after_alloc(m, 15, 43)),
        ({
            let a = file_offset(d, 15, m[15].next as int);
            let a2 = file_offset(d, 15, after_alloc(m, 15, 43)[15].next as int);
            let h1 = file_offset(d, 15, 0xC83C);
            let k1 = file_offset(d, 15, 0xCE67);
            &&& apart(a, 43, h1, 8)
            &&& apart(a, 43, k1, 1)
            &&& apart(a, 43, a2, 43)
            &&& apart(a, 43, file_offset(d, 15, 0xC826), 8)
            &&& apart(a, 43, file_offset(d, 15, 0xCE66), 1)
            &&& apart(h1, 8, a2, 43)
            &&& apart(k1, 1, a2, 43)
        }),
    ensures
        ({
            let a = m[15].next;
            let d2 = fire_crystal_pickup_patched(
                crystal_pickup_patched(d, a),
                after_alloc(m, 15, 43)[15].next,
            );
            &&& d2.subrange(file_offset(d, 15, a as int), file_offset(d, 15, a as int) + 43)
                == CRYSTAL_PICKUP_CODE@
            &&& d2.subrange(file_offset(d, 15, 0xC83C), file_offset(d, 15, 0xC83C) + 8) == jmp_hook8(a)
            &&& d2.subrange(file_offset(d, 7, 0x8C96), file_offset(d, 7, 0x8C96) + 64) == CRYSTAL_TILES@
            &&& d2.subrange(file_offset(d, 7, 0x9AB6), file_offset(d, 7, 0x9AB6) + 12)
                == CRYSTAL_TILEINFO@
            &&& d2.subrange(file_offset(d, 7, 0x8036), file_offset(d, 7, 0x8036) + 2) == seq![
                0x96u8,
                0x0C,
            ]
            &&& d2[file_offset(d, 14, 0x8CEB)] == 0xD7
            &&& d2[file_offset(d, 15, 0xCE67)] == 0x04
        }),
{
    let a = m[15].next;
    let a2 = after_alloc(m, 15, 43)[15].next;
    let c1 = write_cpu(d, 15, a as int, CRYSTAL_PICKUP_CODE@);
    let c2 = write_cpu(c1, 15, 0xC83C, jmp_hook8(a));
    let c3 = write_cpu(c2, 7, 0x8C96, CRYSTAL_TILES@);
    let c4 = write_cpu(c3, 7, 0x9AB6, CRYSTAL_TILEINFO@);
    let c5 = write_cpu(c4, 7, 0x8036, seq![0x96u8, 0x0C]);
    let c6 = write_cpu(c5, 14, 0x8CEB, seq![0xD7u8]);
    let d1 = write_cpu(c6, 15, 0xCE67, seq![0x04u8]);
    assert(same_layout(c1, d) && same_layout(c2, c1) && same_layout(c3, c2) && same_layout(c4, c3)
        && same_layout(c5, c4) && same_layout(c6, c5) && same_layout(d1, c6));
    let f1 = write_cpu(d1, 15, a2 as int, FIRE_CRYSTAL_PICKUP_CODE@);
    let f2 = write_cpu(f1, 15, 0xC826, jmp_hook8(a2));
    let f3 = write_cpu(f2, 7, 0x8CD6, FIRE_CRYSTAL_TILES@);
    let f4 = write_cpu(f3, 7, 0x8034, seq![0xD6u8, 0x0C]);
    let f5 = write_cpu(f4, 14, 0x8CEA, seq![0xD7u8]);
    let d2 = write_cpu(f5, 15, 0xCE66, seq![0x04u8]);
    assert(same_layout(f1, d1) && same_layout(f2, f1) && same_layout(f3, f2) && same_layout(f4, f3)
        && same_layout(f5, f4) && same_layout(d2, f5));
    let oa = file_offset(d, 15, a as int);
    assert(d2.subrange(oa, oa + 43) =~= CRYSTAL_PICKUP_CODE@);
    let oh = file_offset(d, 15, 0xC83C);
    assert(d2.subrange(oh, oh + 8) =~= jmp_hook8(a));
    let ot = file_offset(d, 7, 0x8C96);
    assert(d2.subrange(ot, ot + 64) =~= CRYSTAL_TILES@);
    let oi = file_offset(d, 7, 0x9AB6);
    assert(d2.subrange(oi, oi + 12) =~= CRYSTAL_TILEINFO@);
    let op = file_offset(d, 7, 0x8036);
    assert(d2.subrange(op, op + 2) =~= seq![0x96u8, 0x0C]);
}
} // verus!
