use faxanadu_patcher::rom::Rom;

const BANK: usize = 0x4000;

fn headered_rom() -> Vec<u8> {
    let mut v = vec![0u8; 16 + 16 * BANK];
    v[0] = 0x4E;
    v[1] = 0x45;
    v[2] = 0x53;
    v[3] = 0x1A;
    v
}

#[test]
fn read_word_is_little_endian() {
    let rom = Rom::from_bytes(vec![0x34, 0x12, 0xFF]);
    assert_eq!(rom.read_word(0), 0x1234);
    assert_eq!(rom.read_word(1), 0xFF12);
}

#[test]
fn write_word_then_read_word_gives_value_back() {
    let mut rom = Rom::from_bytes(vec![0u8; 8]);
    rom.write_word(3, 0xBEEF);
    assert_eq!(rom.data(), &[0, 0, 0, 0xEF, 0xBE, 0, 0, 0]);
    assert_eq!(rom.read_word(3), 0xBEEF);
}

#[test]
fn write_byte_then_read_byte() {
    let mut rom = Rom::from_bytes(vec![1, 2, 3]);
    rom.write_byte(1, 0x99);
    assert_eq!(rom.read_byte(1), 0x99);
    assert_eq!(rom.data(), &[1, 0x99, 3]);
}

#[test]
fn bank_base_counts_the_ines_header() {
    let rom = Rom::from_bytes(headered_rom());
    assert_eq!(rom.bank_base(0), 16);
    assert_eq!(rom.bank_base(15), 16 + 15 * BANK);
    let raw = Rom::from_bytes(vec![0u8; 16 * BANK]);
    assert_eq!(raw.bank_base(0), 0);
    assert_eq!(raw.bank_base(14), 14 * BANK);
}

#[test]
fn short_image_has_no_header() {
    let rom = Rom::from_bytes(vec![0x4E, 0x45, 0x53, 0x1A]);
    assert_eq!(rom.bank_base(1), BANK);
}

#[test]
fn cpu_addresses_map_through_both_windows() {
    let rom = Rom::from_bytes(headered_rom());
    assert_eq!(rom.cpu_to_file_offset(15, 0xC5D8), 16 + 15 * BANK + 0x5D8);
    assert_eq!(rom.cpu_to_file_offset(14, 0x877C), 16 + 14 * BANK + 0x77C);
    assert_eq!(rom.cpu_to_file_offset(7, 0x8000), 16 + 7 * BANK);
    assert_eq!(rom.cpu_to_file_offset(7, 0xBFFF), 16 + 7 * BANK + 0x3FFF);
    assert_eq!(rom.cpu_to_file_offset(7, 0xC000), 16 + 7 * BANK);
}

#[test]
fn slice_writers_agree() {
    let mut a = Rom::from_bytes(vec![0u8; 10]);
    let mut b = Rom::from_bytes(vec![0u8; 10]);
    let mut c = Rom::from_bytes(vec![0u8; 10]);
    a.write_slice(2, &[7, 8, 9]);
    b.write_bytes(2, &[7, 8, 9]);
    c.write_slice_at(2, &[7, 8, 9]);
    let expected = [0, 0, 7, 8, 9, 0, 0, 0, 0, 0];
    assert_eq!(a.data(), &expected);
    assert_eq!(b.data(), &expected);
    assert_eq!(c.data(), &expected);
}

#[test]
fn data_mut_writes_through() {
    let mut rom = Rom::from_bytes(vec![0u8; 4]);
    rom.data_mut()[2] = 5;
    assert_eq!(rom.read_byte(2), 5);
    assert_eq!(rom.len(), 4);
}

#[test]
fn find_in_bank_returns_first_match() {
    let mut v = headered_rom();
    let base = 16 + 3 * BANK;
    v[base + 10..base + 13].copy_from_slice(&[1, 2, 3]);
    v[base + 20..base + 23].copy_from_slice(&[1, 2, 3]);
    let rom = Rom::from_bytes(v);
    assert_eq!(rom.find_in_bank(3, &[1, 2, 3]), Some(base + 10));
    assert_eq!(rom.find_all_in_bank(3, &[1, 2, 3]), vec![base + 10, base + 20]);
    assert_eq!(rom.find_in_bank(3, &[4, 5]), None);
    assert!(rom.find_all_in_bank(3, &[4, 5]).is_empty());
}

#[test]
fn find_stays_inside_the_bank() {
    let mut v = headered_rom();
    let base = 16 + 3 * BANK;
    // A pattern that starts in bank 3 but ends in bank 4 is no match.
    v[base + BANK - 1] = 0xAB;
    v[base + BANK] = 0xCD;
    // One that ends on the last byte of the bank is.
    v[base + BANK - 3] = 0xAB;
    v[base + BANK - 2] = 0xCD;
    let rom = Rom::from_bytes(v);
    assert_eq!(rom.find_all_in_bank(3, &[0xAB, 0xCD]), vec![base + BANK - 3]);
}

#[test]
fn find_in_fixed_bank_uses_c000_window() {
    let mut v = headered_rom();
    let base = 16 + 15 * BANK;
    v[base + 5] = 0x77;
    let rom = Rom::from_bytes(v);
    assert_eq!(rom.find_in_bank(15, &[0x77]), Some(base + 5));
}

#[test]
fn overlapping_matches_are_all_found() {
    let mut v = headered_rom();
    let base = 16 + 2 * BANK;
    v[base..base + 4].copy_from_slice(&[9, 9, 9, 9]);
    let rom = Rom::from_bytes(v);
    assert_eq!(rom.find_all_in_bank(2, &[9, 9]), vec![base, base + 1, base + 2]);
}

#[test]
fn masked_search_ignores_masked_bits() {
    let mut v = headered_rom();
    let base = 16 + 5 * BANK;
    v[base + 100..base + 103].copy_from_slice(&[0x20, 0x34, 0x12]);
    v[base + 200..base + 203].copy_from_slice(&[0x20, 0x99, 0x88]);
    let rom = Rom::from_bytes(v);
    // JSR with any operand.
    let pat = [0x20, 0x00, 0x00];
    let mask = [0xFF, 0x00, 0x00];
    assert_eq!(rom.find_masked_in_bank(5, &pat, &mask), Some(base + 100));
    assert_eq!(rom.find_all_masked_in_bank(5, &pat, &mask), vec![base + 100, base + 200]);
    // With a full mask the masked search is the exact search.
    let full = [0xFF, 0xFF, 0xFF];
    assert_eq!(rom.find_masked_in_bank(5, &[0x20, 0x99, 0x88], &full), rom.find_in_bank(5, &[0x20, 0x99, 0x88]));
    assert_eq!(rom.find_masked_in_bank(5, &[0x21, 0x99, 0x88], &full), None);
}

#[test]
fn pattern_longer_than_bank_is_never_found() {
    let rom = Rom::from_bytes(headered_rom());
    let pat = vec![0u8; BANK + 1];
    assert_eq!(rom.find_in_bank(1, &pat), None);
    assert!(rom.find_all_in_bank(1, &pat).is_empty());
}
