use vstd::prelude::*;

use crate::consts::{jsr_seq, TARGET_BANK};
use crate::rom::{cpu_fits, file_offset, lemma_write_same_layout, same_layout, write_cpu, Rom};
use crate::subroutine::Subroutine;

pub mod frame_counter;
pub mod health;
pub mod health_frac;
pub mod level_display;
pub mod mana;
pub mod ointment;
pub mod player_stats_hook;
pub mod screen_id;

verus! {

broadcast use lemma_write_same_layout;

/// The call sites redirected into the HUD routines: (call site, routine), both in the
/// fixed bank.
pub open spec fn hud_jsr_sites() -> Seq<(u16, u16)> {
    seq![
        (0xC8BFu16, 0xFCD0u16),  // ointment decrement
        (0xE036u16, 0xFE20u16),  // frame counter (pause loop)
        (0xDB4Du16, 0xFE20u16),  // frame counter (main game loop)
        (0xC1EFu16, 0xFD30u16),  // screen id
        (0xFA7Eu16, 0xFD90u16),  // health
    ]
}

/// `d` after writing `JSR target` at each call site of `sites`, in order.
pub open spec fn jsr_sites_written(d: Seq<u8>, sites: Seq<(u16, u16)>) -> Seq<u8>
    decreases sites.len(),
{
    if sites.len() == 0 {
        d
    } else {
        let (dest, target) = sites.last();
        write_cpu(jsr_sites_written(d, sites.drop_last()), TARGET_BANK as int, dest as int, jsr_seq(target))
    }
}

/// Whether every call site of `sites` can take a three-byte instruction in `d`.
pub open spec fn jsr_sites_fit(d: Seq<u8>, sites: Seq<(u16, u16)>) -> bool {
    forall|k: int| 0 <= k < sites.len() ==> cpu_fits(d, TARGET_BANK as int, #[trigger] sites[k].0 as int, 3)
}

/// The HUD routines and where they go in the fixed bank, in the order written.
pub open spec fn hud_routines() -> Seq<(u16, Seq<u8>)> {
    seq![
        (0xFCD0u16, ointment::ointment_decrement_seq()),
        (0xFD00u16, ointment::ointment_draw_seq()),
        (0xFD30u16, screen_id::screen_id_seq()),
        (0xFD60u16, level_display::level_display_seq()),
        (0xFD90u16, health::health_seq()),
        (0xFEA0u16, health_frac::health_frac_seq()),
        (0xFE20u16, frame_counter::frame_counter_seq()),
    ]
}

/// The code that the routine table puts at `addr`, if some routine starts there.
pub open spec fn routine_at(routines: Seq<(u16, Seq<u8>)>, addr: u16) -> Option<Seq<u8>>
    decreases routines.len(),
{
    if routines.len() == 0 {
        None
    } else if routines[0].0 == addr {
        Some(routines[0].1)
    } else {
        routine_at(routines.drop_first(), addr)
    }
}

/// Every redirected call site calls the start of the routine meant for it: $C8BF the
/// ointment decrement, $E036 and $DB4D the frame counter, $C1EF the screen id and $FA7E
/// the health display.
pub proof fn lemma_hud_calls_reach_their_routines()
    ensures
        hud_jsr_sites().len() == 5,
        hud_jsr_sites()[0].0 == 0xC8BF,
        routine_at(hud_routines(), hud_jsr_sites()[0].1) == Some(ointment::ointment_decrement_seq()),
        hud_jsr_sites()[1].0 == 0xE036,
        routine_at(hud_routines(), hud_jsr_sites()[1].1) == Some(frame_counter::frame_counter_seq()),
        hud_jsr_sites()[2].0 == 0xDB4D,
        routine_at(hud_routines(), hud_jsr_sites()[2].1) == Some(frame_counter::frame_counter_seq()),
        hud_jsr_sites()[3].0 == 0xC1EF,
        routine_at(hud_routines(), hud_jsr_sites()[3].1) == Some(screen_id::screen_id_seq()),
        hud_jsr_sites()[4].0 == 0xFA7E,
        routine_at(hud_routines(), hud_jsr_sites()[4].1) == Some(health::health_seq()),
{
    reveal_with_fuel(routine_at, 8);
}

/// `d` after writing each routine of `routines` at its address in the fixed bank.
pub open spec fn routines_written(d: Seq<u8>, routines: Seq<(u16, Seq<u8>)>) -> Seq<u8>
    decreases routines.len(),
{
    if routines.len() == 0 {
        d
    } else {
        let (cpu, code) = routines.last();
        write_cpu(routines_written(d, routines.drop_last()), TARGET_BANK as int, cpu as int, code)
    }
}

/// Whether every routine of `routines` fits at its address in `d`.
pub open spec fn routines_fit(d: Seq<u8>, routines: Seq<(u16, Seq<u8>)>) -> bool {
    forall|k: int|
        0 <= k < routines.len() ==> cpu_fits(
            d,
            TARGET_BANK as int,
            (#[trigger] routines[k]).0 as int,
            routines[k].1.len() as int,
        )
}

pub proof fn lemma_jsr_sites_layout(d: Seq<u8>, sites: Seq<(u16, u16)>)
    requires
        jsr_sites_fit(d, sites),
    ensures
        same_layout(jsr_sites_written(d, sites), d),
    decreases sites.len(),
{
    if sites.len() > 0 {
        let prefix = sites.drop_last();
        assert forall|k: int| 0 <= k < prefix.len() implies cpu_fits(d, TARGET_BANK as int, #[trigger] prefix[k].0 as int, 3) by {
            assert(prefix[k] == sites[k]);
        }
        lemma_jsr_sites_layout(d, prefix);
        assert(cpu_fits(d, TARGET_BANK as int, sites[sites.len() - 1].0 as int, 3));
    }
}

proof fn lemma_routines_layout(d: Seq<u8>, routines: Seq<(u16, Seq<u8>)>)
    requires
        routines_fit(d, routines),
    ensures
        same_layout(routines_written(d, routines), d),
    decreases routines.len(),
{
    if routines.len() > 0 {
        let prefix = routines.drop_last();
        assert forall|k: int| 0 <= k < prefix.len() implies cpu_fits(
            d,
            TARGET_BANK as int,
            (#[trigger] prefix[k]).0 as int,
            prefix[k].1.len() as int,
        ) by {
            assert(prefix[k] == routines[k]);
        }
        lemma_routines_layout(d, prefix);
        assert(cpu_fits(
            d,
            TARGET_BANK as int,
            routines[routines.len() - 1].0 as int,
            routines[routines.len() - 1].1.len() as int,
        ));
    }
}

/// Whether every call site and every routine of the HUD patch fits in the image.
pub fn hud_patches_fit(rom: &Rom) -> (r: bool)
    ensures
        r == (jsr_sites_fit(rom@, hud_jsr_sites()) && routines_fit(rom@, hud_routines())),
{
    let ghost sites = hud_jsr_sites();
    let ghost rs = hud_routines();
    let sites_ok = rom.cpu_range_fits(TARGET_BANK, 0xC8BF, 3) && rom.cpu_range_fits(TARGET_BANK, 0xE036, 3)
        && rom.cpu_range_fits(TARGET_BANK, 0xDB4D, 3) && rom.cpu_range_fits(TARGET_BANK, 0xC1EF, 3)
        && rom.cpu_range_fits(TARGET_BANK, 0xFA7E, 3);
    proof {
        if sites_ok {
            assert forall|k: int| 0 <= k < sites.len() implies cpu_fits(rom@, TARGET_BANK as int, #[trigger] sites[k].0 as int, 3) by {
                assert(k == 0 || k == 1 || k == 2 || k == 3 || k == 4);
            }
        } else {
            assert(!jsr_sites_fit(rom@, sites) || (
                cpu_fits(rom@, TARGET_BANK as int, sites[0].0 as int, 3)
                && cpu_fits(rom@, TARGET_BANK as int, sites[1].0 as int, 3)
                && cpu_fits(rom@, TARGET_BANK as int, sites[2].0 as int, 3)
                && cpu_fits(rom@, TARGET_BANK as int, sites[3].0 as int, 3)
                && cpu_fits(rom@, TARGET_BANK as int, sites[4].0 as int, 3)));
        }
    }
    let l0 = ointment::build_ointment_decrement().len();
    let l1 = ointment::build_ointment_draw().len();
    let l2 = screen_id::build_screen_id().len();
    let l3 = level_display::build_level_display().len();
    let l4 = health::build_health().len();
    let l5 = health_frac::build_health_frac().len();
    let l6 = frame_counter::build_frame_counter().len();
    let routines_ok = rom.cpu_range_fits(TARGET_BANK, 0xFCD0, l0) && rom.cpu_range_fits(TARGET_BANK, 0xFD00, l1)
        && rom.cpu_range_fits(TARGET_BANK, 0xFD30, l2) && rom.cpu_range_fits(TARGET_BANK, 0xFD60, l3)
        && rom.cpu_range_fits(TARGET_BANK, 0xFD90, l4) && rom.cpu_range_fits(TARGET_BANK, 0xFEA0, l5)
        && rom.cpu_range_fits(TARGET_BANK, 0xFE20, l6);
    proof {
        if routines_ok {
            assert forall|k: int| 0 <= k < rs.len() implies cpu_fits(
                rom@,
                TARGET_BANK as int,
                (#[trigger] rs[k]).0 as int,
                rs[k].1.len() as int,
            ) by {
                assert(k == 0 || k == 1 || k == 2 || k == 3 || k == 4 || k == 5 || k == 6);
            }
        } else {
            assert(!routines_fit(rom@, rs) || (
                cpu_fits(rom@, TARGET_BANK as int, rs[0].0 as int, rs[0].1.len() as int)
                && cpu_fits(rom@, TARGET_BANK as int, rs[1].0 as int, rs[1].1.len() as int)
                && cpu_fits(rom@, TARGET_BANK as int, rs[2].0 as int, rs[2].1.len() as int)
                && cpu_fits(rom@, TARGET_BANK as int, rs[3].0 as int, rs[3].1.len() as int)
                && cpu_fits(rom@, TARGET_BANK as int, rs[4].0 as int, rs[4].1.len() as int)
                && cpu_fits(rom@, TARGET_BANK as int, rs[5].0 as int, rs[5].1.len() as int)
                && cpu_fits(rom@, TARGET_BANK as int, rs[6].0 as int, rs[6].1.len() as int)));
        }
    }
    sites_ok && routines_ok
}

/// Write `JSR target` at CPU address `destination` of the fixed bank and return the file
/// offset written.
fn substitute_jsr(rom: &mut Rom, destination: u16, target: u16) -> (r: usize)
    requires
        cpu_fits(old(rom)@, TARGET_BANK as int, destination as int, 3),
    ensures
        final(rom)@ == write_cpu(old(rom)@, TARGET_BANK as int, destination as int, jsr_seq(target)),
        r == file_offset(old(rom)@, TARGET_BANK as int, destination as int),
{
    let off = rom.cpu_to_file_offset(TARGET_BANK, destination);
    let buf = crate::consts::jsr_bytes(target);  // JSR target
    rom.write_slice(off, &buf);
    off
}

/// Substitute the original JSR call sites so they jump into our HUD routines.
/// Returns (call site, file offset, routine) for each substitution, in order.
pub fn substitute_all_jsr(rom: &mut Rom) -> (r: Vec<(u16, usize, u16)>)
    requires
        jsr_sites_fit(old(rom)@, hud_jsr_sites()),
    ensures
        final(rom)@ == jsr_sites_written(old(rom)@, hud_jsr_sites()),
        r@.len() == hud_jsr_sites().len(),
        forall|k: int|
            0 <= k < r@.len() ==> (#[trigger] r@[k]).0 == hud_jsr_sites()[k].0 && r@[k].2
                == hud_jsr_sites()[k].1 && r@[k].1 == file_offset(
                old(rom)@,
                TARGET_BANK as int,
                r@[k].0 as int,
            ),
{
    let ghost d0 = rom@;
    let ghost sites = hud_jsr_sites();
    assert(cpu_fits(d0, TARGET_BANK as int, sites[0].0 as int, 3));
    assert(cpu_fits(d0, TARGET_BANK as int, sites[1].0 as int, 3));
    assert(cpu_fits(d0, TARGET_BANK as int, sites[2].0 as int, 3));
    assert(cpu_fits(d0, TARGET_BANK as int, sites[3].0 as int, 3));
    assert(cpu_fits(d0, TARGET_BANK as int, sites[4].0 as int, 3));
    let mut out: Vec<(u16, usize, u16)> = Vec::new();
    assert(jsr_sites_written(d0, sites.take(0)) == d0);
    let o = substitute_jsr(rom, 0xC8BF, 0xFCD0);  // ointment decrement
    out.push((0xC8BF, o, 0xFCD0));
    assert(sites.take(1).drop_last() =~= sites.take(0));
    assert(rom@ == jsr_sites_written(d0, sites.take(1)));
    let o = substitute_jsr(rom, 0xE036, 0xFE20);  // frame counter (pause loop)
    out.push((0xE036, o, 0xFE20));
    assert(sites.take(2).drop_last() =~= sites.take(1));
    assert(rom@ == jsr_sites_written(d0, sites.take(2)));
    let o = substitute_jsr(rom, 0xDB4D, 0xFE20);  // frame counter (main game loop)
    out.push((0xDB4D, o, 0xFE20));
    assert(sites.take(3).drop_last() =~= sites.take(2));
    assert(rom@ == jsr_sites_written(d0, sites.take(3)));
    let o = substitute_jsr(rom, 0xC1EF, 0xFD30);  // screen id
    out.push((0xC1EF, o, 0xFD30));
    assert(sites.take(4).drop_last() =~= sites.take(3));
    assert(rom@ == jsr_sites_written(d0, sites.take(4)));
    let o = substitute_jsr(rom, 0xFA7E, 0xFD90);  // health
    out.push((0xFA7E, o, 0xFD90));
    assert(sites.take(5).drop_last() =~= sites.take(4));
    assert(rom@ == jsr_sites_written(d0, sites.take(5)));
    proof {
        assert(sites.take(5) =~= sites);
    }
    out
}

/// Apply all HUD patches directly at fixed addresses.
/// Returns (address, length) of each routine written, in order.
pub fn apply_all_hud_patches(rom: &mut Rom) -> (r: Vec<(u16, usize)>)
    requires
        routines_fit(old(rom)@, hud_routines()),
    ensures
        final(rom)@ == routines_written(old(rom)@, hud_routines()),
        r@.len() == hud_routines().len(),
        forall|k: int|
            0 <= k < r@.len() ==> (#[trigger] r@[k]).0 == hud_routines()[k].0 && r@[k].1
                == hud_routines()[k].1.len(),
{
    let ghost d0 = rom@;
    let ghost rs = hud_routines();
    let mut out: Vec<(u16, usize)> = Vec::new();
    let mut k: usize = 0;
    while k < 7
        invariant
            k <= 7,
            rs == hud_routines(),
            rs.len() == 7,
            routines_fit(d0, rs),
            rom@ == routines_written(d0, rs.take(k as int)),
            out@.len() == k,
            forall|j: int|
                0 <= j < k ==> (#[trigger] out@[j]).0 == rs[j].0 && out@[j].1 == rs[j].1.len(),
        decreases 7 - k,
    {
        let (target_cpu, sub): (u16, Subroutine) = if k == 0 {
            (0xFCD0, ointment::build_ointment_decrement())
        } else if k == 1 {
            (0xFD00, ointment::build_ointment_draw())
        } else if k == 2 {
            (0xFD30, screen_id::build_screen_id())
        } else if k == 3 {
            (0xFD60, level_display::build_level_display())
        } else if k == 4 {
            (0xFD90, health::build_health())
        } else if k == 5 {
            (0xFEA0, health_frac::build_health_frac())
        } else {
            (0xFE20, frame_counter::build_frame_counter())
        };
        assert(target_cpu == rs[k as int].0 && sub@ == rs[k as int].1);
        proof {
            let prefix = rs.take(k as int);
            assert forall|j: int| 0 <= j < prefix.len() implies cpu_fits(
                d0,
                TARGET_BANK as int,
                (#[trigger] prefix[j]).0 as int,
                prefix[j].1.len() as int,
            ) by {
                assert(prefix[j] == rs[j]);
            }
            lemma_routines_layout(d0, prefix);
            assert(cpu_fits(d0, TARGET_BANK as int, rs[k as int].0 as int, rs[k as int].1.len() as int));
        }
        let off = rom.cpu_to_file_offset(TARGET_BANK, target_cpu);
        let bytes = sub.bytes();
        rom.write_slice(off, bytes);
        out.push((target_cpu, bytes.len()));
        assert(rs.take(k + 1).drop_last() =~= rs.take(k as int));
        k = k + 1;
    }
    assert(rs.take(7) =~= rs);
    // Player stats hook (JSR $FE60 at $FA8B): built, not installed.
    let _hook = player_stats_hook::build_player_stats_hook();
    out
}

} // verus!
