use faxanadu_patcher::allocator::{BankRegion, FreeSpaceAllocator};
use faxanadu_patcher::rom::Rom;

const BANK: usize = 0x4000;

/// A headered image whose banks 12, 14 and 15 hold data up to (but not including) the
/// given offsets within the bank, and $FF after.
fn rom_with_tails(used12: usize, used14: usize, used15: usize) -> Rom {
    let mut v = vec![0u8; 16 + 16 * BANK];
    v[0..4].copy_from_slice(&[0x4E, 0x45, 0x53, 0x1A]);
    for (bank, used) in [(12usize, used12), (14, used14), (15, used15)] {
        let base = 16 + bank * BANK;
        for i in used..BANK {
            v[base + i] = 0xFF;
        }
    }
    Rom::from_bytes(v)
}

#[test]
fn scan_keeps_a_guard_byte_after_data() {
    let rom = rom_with_tails(0x1000, 0x2000, 0x3000);
    let alloc = FreeSpaceAllocator::new(&rom);
    // last used byte at 0x0FFF -> free from 0x8000 + 0x1001
    assert_eq!(alloc.region(12), Some(BankRegion { start: 0x9001, next: 0x9001, end: 0xC000 }));
    assert_eq!(alloc.region(14), Some(BankRegion { start: 0xA001, next: 0xA001, end: 0xC000 }));
    // bank 15 stops below $FFE0 with one more guard byte
    assert_eq!(alloc.region(15), Some(BankRegion { start: 0xF001, next: 0xF001, end: 0xFFDF }));
    assert_eq!(alloc.region(13), None);
    assert_eq!(alloc.remaining(12), Some(0xC000 - 0x9001));
    assert_eq!(alloc.remaining(15), Some(0xFFDF - 0xF001));
    assert_eq!(alloc.remaining(3), None);
}

#[test]
fn fully_free_bank_starts_at_its_base() {
    let rom = rom_with_tails(0, 0, 0);
    let alloc = FreeSpaceAllocator::new(&rom);
    assert_eq!(alloc.region(12).unwrap().start, 0x8000);
    assert_eq!(alloc.region(15).unwrap().start, 0xC000);
}

#[test]
fn data_above_ffe0_is_not_scanned() {
    let mut rom = rom_with_tails(0x2000, 0x2000, 0x2000);
    // bytes at $FFE0 and above belong to the title and vectors
    let off = rom.cpu_to_file_offset(15, 0xFFF0);
    rom.write_byte(off, 0x12);
    let alloc = FreeSpaceAllocator::new(&rom);
    assert_eq!(alloc.region(15).unwrap().start, 0xE001);
}

#[test]
fn successive_allocations_do_not_overlap() {
    let rom = rom_with_tails(0x1000, 0x1000, 0x1000);
    let mut alloc = FreeSpaceAllocator::new(&rom);
    let a = alloc.allocate(14, 12);
    let b = alloc.allocate(14, 16);
    assert_eq!(a, 0x9001);
    assert_eq!(b, a + 12);
    assert_eq!(alloc.remaining(14), Some(0xC000 - (0x9001 + 28)));
    assert_eq!(alloc.usage(14), Some((0xC000 - 0x9001, 28)));
    assert_eq!(alloc.usage(13), None);
    // other banks untouched
    assert_eq!(alloc.remaining(15), Some(0xFFDF - 0xD001));
}

#[test]
fn allocation_may_fill_the_bank_exactly() {
    let rom = rom_with_tails(0x3F00, 0, 0);
    let mut alloc = FreeSpaceAllocator::new(&rom);
    let room = alloc.remaining(12).unwrap() as usize;
    let a = alloc.allocate(12, room);
    assert_eq!(a, 0xBF01);
    assert_eq!(alloc.remaining(12), Some(0));
}


#[test]
fn a_run_of_allocations_hands_out_disjoint_ff_blocks() {
    let rom = rom_with_tails(0x1000, 0x2000, 0x3000);
    let mut alloc = FreeSpaceAllocator::new(&rom);
    let reqs = [(15usize, 25usize), (14, 96), (15, 12), (15, 43), (14, 3), (12, 1)];
    let mut blocks: Vec<(usize, u16, usize)> = Vec::new();
    for &(bank, size) in reqs.iter() {
        let a = alloc.allocate(bank, size);
        blocks.push((bank, a, size));
    }
    for (i, &(b1, a1, n1)) in blocks.iter().enumerate() {
        // every byte of the block, and the guard byte below the first one, is $FF
        let off = rom.cpu_to_file_offset(b1, a1);
        assert!(rom.data()[off..off + n1].iter().all(|&x| x == 0xFF));
        for &(b2, a2, n2) in blocks.iter().skip(i + 1) {
            if b1 == b2 {
                assert!(a1 as usize + n1 <= a2 as usize);
                assert!(a2 as usize + n2 <= alloc.region(b2).unwrap().end as usize);
            }
        }
    }
    let first15 = rom.cpu_to_file_offset(15, 0xF001);
    assert_eq!(rom.data()[first15 - 1], 0xFF);
    assert_ne!(rom.data()[first15 - 2], 0xFF);
    // what is left is the free range less the bytes asked of the bank
    assert_eq!(alloc.remaining(15), Some(0xFFDF - 0xF001 - (25 + 12 + 43)));
    assert_eq!(alloc.remaining(14), Some(0xC000 - 0xA001 - (96 + 3)));
    assert_eq!(alloc.remaining(12), Some(0xC000 - 0x9001 - 1));
}
