use vstd::prelude::*;

use crate::rom::{cpu_fits, lemma_write_same_layout, Rom};

pub mod bugfixes;
pub mod hud;
pub mod indoor;
pub mod inventory;
pub mod items;
pub mod level_skip;
pub mod music;
pub mod player;
pub mod screens;
pub mod shops;
pub mod sprites;
pub mod text;

verus! {

broadcast use lemma_write_same_layout;

pub fn apply_all_hud_patches(rom: &mut Rom)
    requires
        hud::jsr_sites_fit(old(rom)@, hud::hud_jsr_sites()),
        hud::routines_fit(old(rom)@, hud::hud_routines()),
    ensures
        final(rom)@ == hud::routines_written(
            hud::jsr_sites_written(old(rom)@, hud::hud_jsr_sites()),
            hud::hud_routines(),
        ),
{
    // 1) HUD hooks
    let _ = hud::substitute_all_jsr(rom);

    // 2) HUD routines
    proof {
        hud::lemma_jsr_sites_layout(old(rom)@, hud::hud_jsr_sites());
        assert forall|k: int| 0 <= k < hud::hud_routines().len() implies cpu_fits(
            rom@,
            crate::consts::TARGET_BANK as int,
            (#[trigger] hud::hud_routines()[k]).0 as int,
            hud::hud_routines()[k].1.len() as int,
        ) by {
            assert(cpu_fits(
                old(rom)@,
                crate::consts::TARGET_BANK as int,
                hud::hud_routines()[k].0 as int,
                hud::hud_routines()[k].1.len() as int,
            ));
        }
    }
    let _ = hud::apply_all_hud_patches(rom);
}

} // verus!
