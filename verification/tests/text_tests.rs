use faxanadu_patcher::patches::text::dialog::add_dialog_message;
use faxanadu_patcher::patches::text::title_screen::{
    patch_title_lines, patch_title_lines_checked, write_title_text,
};
use faxanadu_patcher::patches::text::TitleDict;
use faxanadu_patcher::rom::Rom;

const BANK: usize = 0x4000;

fn headered(fill: u8) -> Vec<u8> {
    let mut v = vec![fill; 16 + 16 * BANK];
    v[0..4].copy_from_slice(&[0x4E, 0x45, 0x53, 0x1A]);
    v
}

#[test]
fn title_dict_encodes_supported_characters() {
    let d = TitleDict::new();
    assert_eq!(d.encode(' '), 0x20);
    assert_eq!(d.encode('0'), 0xD6);
    assert_eq!(d.encode('9'), 0xDF);
    assert_eq!(d.encode('A'), 0xE0);
    assert_eq!(d.encode('Z'), 0xF9);
    assert_eq!(d.encode('c'), 0xFA);
    assert_eq!(d.encode('a'), 0x20);
    assert_eq!(d.encode('-'), 0x20);
    assert_eq!(d.encode('é'), 0x20);
}

/// Title region: bank 12 $9DCC..=$9E0D, three 0-terminated strings.
fn title_rom(lens: [usize; 3]) -> (Rom, usize) {
    let mut v = headered(0x11);
    let start = 16 + 12 * BANK + 0x1DCC;
    let mut p = start;
    for l in lens {
        p += l;
        v[p] = 0;
        p += 1;
    }
    (Rom::from_bytes(v), start)
}

#[test]
fn title_lines_are_uppercased_padded_and_cut() {
    let (mut rom, start) = title_rom([5, 3, 4]);
    let r = patch_title_lines(&mut rom, "ab1", "HELLO", "x y");
    assert_eq!(r, Ok([6, 4, 5]));
    let d = rom.data();
    // "AB1" padded to 5 characters
    assert_eq!(&d[start..start + 6], &[0xE0, 0xE1, 0xD7, 0x20, 0x20, 0x00]);
    // "HELLO" cut to 3 characters
    assert_eq!(&d[start + 6..start + 10], &[0xE7, 0xE4, 0xEB, 0x00]);
    // "X Y" padded to 4 characters
    assert_eq!(&d[start + 10..start + 15], &[0xF7, 0x20, 0xF8, 0x20, 0x00]);
    // the byte after the third slot is untouched
    assert_eq!(d[start + 15], 0x11);
}

#[test]
fn title_patch_aborts_with_fewer_than_three_slots() {
    // one terminator in the region, then none up to the end
    let mut v = headered(0x11);
    let start = 16 + 12 * BANK + 0x1DCC;
    v[start + 4] = 0;
    let mut rom = Rom::from_bytes(v.clone());
    assert_eq!(patch_title_lines(&mut rom, "A", "B", "C"), Err(2));
    assert_eq!(rom.data(), &v[..]);
}

#[test]
fn dialog_message_is_numbered_after_existing_ones() {
    let mut v = headered(0x00);
    let start = 16 + 13 * BANK + 0x300;
    let insert = 16 + 13 * BANK + 0x33BA;
    v[start] = 0xFF;
    v[start + 10] = 0xFF;
    v[insert - 1] = 0xFF;
    v[insert] = 0xFF; // not counted: the scan stops before $B3BA
    let mut rom = Rom::from_bytes(v);
    let idx = add_dialog_message(&mut rom, "HI YOU\nOK");
    assert_eq!(idx, 4);
    let d = rom.data();
    assert_eq!(
        &d[insert..insert + 10],
        &[b'H', b'I', 0xFD, b'Y', b'O', b'U', 0xFE, b'O', b'K', 0xFF]
    );
}

#[test]
fn dialog_index_wraps_at_256() {
    let mut v = headered(0x00);
    let start = 16 + 13 * BANK + 0x300;
    for i in 0..255 {
        v[start + i] = 0xFF;
    }
    let mut rom = Rom::from_bytes(v.clone());
    assert_eq!(add_dialog_message(&mut rom, ""), 0);
    for i in 255..256 {
        v[start + i] = 0xFF;
    }
    let mut rom = Rom::from_bytes(v);
    assert_eq!(add_dialog_message(&mut rom, "x"), 1);
}

#[test]
fn title_patch_works_on_an_image_ending_at_the_title_region() {
    // the image stops right after $9E0D; the third line ends there
    let start = 16 + 12 * BANK + 0x1DCC;
    let end = 16 + 12 * BANK + 0x1E0D;
    let mut v = headered(0x11);
    v.truncate(end + 1);
    v[start + 3] = 0;
    v[start + 7] = 0;
    v[end] = 0;
    let mut rom = Rom::from_bytes(v);
    let r = patch_title_lines(&mut rom, "abc", "de", "f");
    assert_eq!(r, Ok([4, 4, end - start - 7]));
    let d = rom.data();
    assert_eq!(&d[start..start + 4], &[0xE0, 0xE1, 0xE2, 0x00]);
    assert_eq!(&d[start + 4..start + 8], &[0xE3, 0xE4, 0x20, 0x00]);
    assert_eq!(d[start + 8], 0xE5);
    assert_eq!(d[end], 0x00);
    assert_eq!(d.len(), end + 1);

    // with a single terminator nothing is written, even at the very end of the image
    let mut w = headered(0x11);
    w.truncate(end + 1);
    w[start + 2] = 0;
    let mut rom = Rom::from_bytes(w.clone());
    assert_eq!(patch_title_lines(&mut rom, "A", "B", "C"), Err(2));
    assert_eq!(rom.data(), &w[..]);
}

#[test]
fn title_lines_take_unicode_text() {
    let (mut rom, start) = title_rom([5, 3, 4]);
    let r = patch_title_lines(&mut rom, "café", "ß", "ééé");
    assert_eq!(r, Ok([6, 4, 5]));
    let d = rom.data();
    // "CAFÉ" takes exactly 5 bytes: no padding, 4 characters drawn, the fifth byte kept
    assert_eq!(&d[start..start + 6], &[0xE2, 0xE0, 0xE5, 0x20, 0x11, 0x00]);
    // "ß" upper-cases to "SS", padded to 3 characters
    assert_eq!(&d[start + 6..start + 10], &[0xF2, 0xF2, 0x20, 0x00]);
    // "ÉÉÉ" is 6 bytes, cut to 4 bytes = 2 characters; the rest of the slot is kept
    assert_eq!(&d[start + 10..start + 15], &[0x20, 0x20, 0x11, 0x11, 0x00]);
}

#[test]
fn title_text_exactly_filling_its_bytes_is_not_padded() {
    let (mut rom, start) = title_rom([5, 3, 4]);
    write_title_text(&mut rom, &TitleDict::new(), (start, 4), "ÀB");
    assert_eq!(&rom.data()[start..start + 4], &[0x20, 0xE1, 0x11, 0x00]);
}

#[test]
fn checked_title_patch_refuses_a_cut_inside_a_character() {
    let (mut rom, _) = title_rom([5, 3, 4]);
    let before = rom.data().to_vec();
    // "ÉÉ" is 4 bytes and the second slot holds 3: the cut would split the second É
    assert_eq!(patch_title_lines_checked(&mut rom, "A", "éé", "B"), None);
    assert_eq!(rom.data(), &before[..]);
    let r = patch_title_lines_checked(&mut rom, "A", "é", "B");
    assert_eq!(r, Some(Ok([6, 4, 5])));
}

#[test]
fn title_patch_abort_ignores_the_text() {
    let mut v = headered(0x11);
    let start = 16 + 12 * BANK + 0x1DCC;
    v[start + 4] = 0;
    let mut rom = Rom::from_bytes(v.clone());
    assert_eq!(patch_title_lines(&mut rom, "ééééééé", "ß", "日本"), Err(2));
    assert_eq!(patch_title_lines_checked(&mut rom, "ééééééé", "ß", "日本"), Some(Err(2)));
    assert_eq!(rom.data(), &v[..]);
}
