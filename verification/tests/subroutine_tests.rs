use faxanadu_patcher::patches::hud::frame_counter::build_frame_counter;
use faxanadu_patcher::patches::hud::health::build_health;
use faxanadu_patcher::patches::hud::health_frac::build_health_frac;
use faxanadu_patcher::patches::hud::level_display::build_level_display;
use faxanadu_patcher::patches::hud::mana::build_mana;
use faxanadu_patcher::patches::hud::ointment::{build_ointment_decrement, build_ointment_draw};
use faxanadu_patcher::patches::hud::player_stats_hook::build_player_stats_hook;
use faxanadu_patcher::patches::hud::screen_id::build_screen_id;
use faxanadu_patcher::rom::Rom;
use faxanadu_patcher::subroutine::Subroutine;

const PREPARE: [u8; 13] = [0xA9, 0x00, 0x8D, 0xED, 0x00, 0x8D, 0xEE, 0x00, 0xA9, 0x20, 0x8D, 0xE9, 0x00];
const SHOW: [u8; 3] = [0x20, 0x06, 0xFA];

fn cat(parts: &[&[u8]]) -> Vec<u8> {
    parts.iter().flat_map(|p| p.iter().copied()).collect()
}

#[test]
fn builder_appends_instructions() {
    let mut s = Subroutine::new();
    assert!(s.is_empty());
    s.add(0xEA);
    s.add_imm(0xA9, 0x42);
    s.add_abs(0x8D, 0x1234);
    s.jsr(0xCA25);
    s.jmp(0xDB45);
    s.rts();
    assert_eq!(
        s.bytes(),
        &[0xEA, 0xA9, 0x42, 0x8D, 0x34, 0x12, 0x20, 0x25, 0xCA, 0x4C, 0x45, 0xDB, 0x60]
    );
    assert_eq!(s.len(), 13);
    assert!(!s.is_empty());
}

#[test]
fn ascii_helpers() {
    let mut s = Subroutine::new();
    s.set_ascii_value(0x0427);
    s.prepare_ascii();
    s.set_ascii_position(0x78);
    s.set_ascii_length(2);
    s.show_ascii();
    assert_eq!(
        s.bytes().to_vec(),
        cat(&[&[0xAD, 0x27, 0x04, 0x8D, 0xEC, 0x00], &PREPARE, &[0xA9, 0x78, 0x8D, 0xE8, 0x00], &[0xA0, 0x02], &SHOW])
    );
}

#[test]
fn add_to_rom_writes_at_the_cpu_address() {
    let mut rom = Rom::from_bytes(vec![0u8; 16 * 0x4000]);
    let mut s = Subroutine::new();
    s.add(0x60);
    s.add(0xEA);
    s.add_to_rom(0xC010, 15, &mut rom);
    assert_eq!(rom.read_byte(15 * 0x4000 + 0x10), 0x60);
    assert_eq!(rom.read_byte(15 * 0x4000 + 0x11), 0xEA);
}

#[test]
fn hud_routines_have_their_exact_bytes() {
    assert_eq!(
        build_ointment_decrement().bytes(),
        &[0xCE, 0x27, 0x04, 0x20, 0x00, 0xFD, 0xAD, 0x27, 0x04, 0x60]
    );
    assert_eq!(
        build_ointment_draw().bytes().to_vec(),
        cat(&[&[0xAD, 0x27, 0x04, 0x8D, 0xEC, 0x00], &PREPARE, &[0xA9, 0x78, 0x8D, 0xE8, 0x00, 0xA0, 0x02], &SHOW, &[0x60]])
    );
    assert_eq!(
        build_frame_counter().bytes().to_vec(),
        cat(&[
            &[0xAD, 0x1A, 0x00, 0x8D, 0xEC, 0x00, 0x20, 0x25, 0xCA],
            &PREPARE,
            &[0xA9, 0x38, 0x8D, 0xE8, 0x00, 0xA0, 0x03],
            &SHOW,
            &[0x60],
        ])
    );
    assert_eq!(
        build_health().bytes().to_vec(),
        cat(&[
            &[0x8D, 0x31, 0x04, 0x8D, 0xEC, 0x00, 0x8D, 0xEB, 0x00],
            &PREPARE,
            &[0xA9, 0x26, 0x8D, 0xE8, 0x00, 0xA0, 0x02],
            &SHOW,
            &[0x20, 0xA0, 0xFE, 0xAD, 0xEB, 0x00, 0x60],
        ])
    );
    assert_eq!(
        build_health_frac().bytes().to_vec(),
        cat(&[&[0xAD, 0x32, 0x04, 0x8D, 0xEC, 0x00], &PREPARE, &[0xA9, 0x29, 0x8D, 0xE8, 0x00, 0xA0, 0x03], &SHOW, &[0x60]])
    );
    assert_eq!(
        build_level_display().bytes().to_vec(),
        cat(&[&[0xAD, 0x24, 0x00, 0x8D, 0xEC, 0x00], &PREPARE, &[0xA9, 0x21, 0x8D, 0xE8, 0x00, 0xA0, 0x01], &SHOW, &[0x60]])
    );
    assert_eq!(
        build_mana().bytes().to_vec(),
        cat(&[
            &[0x8D, 0x9A, 0x03, 0x8D, 0xEC, 0x00, 0x8D, 0xEB, 0x00],
            &PREPARE,
            &[0xA9, 0x2D, 0x8D, 0xE8, 0x00, 0x8C, 0xEA, 0x00, 0xA0, 0x02],
            &SHOW,
            &[0xAC, 0xEA, 0x00, 0xAD, 0xEB, 0x00, 0x60],
        ])
    );
    assert_eq!(build_player_stats_hook().bytes(), &[0x20, 0x60, 0xFE, 0x60]);
    assert_eq!(
        build_screen_id().bytes().to_vec(),
        cat(&[
            &[0x20, 0x05, 0xC2, 0x20, 0x60, 0xFD, 0xAD, 0x63, 0x00, 0x8D, 0xEC, 0x00],
            &PREPARE,
            &[0xA9, 0x23, 0x8D, 0xE8, 0x00, 0xA0, 0x02],
            &SHOW,
            &[0x60],
        ])
    );
}
