use faxanadu_patcher::ips::{diff_roms, encode_ips};

fn apply(base: &[u8], edits: &[(usize, Vec<u8>)]) -> Vec<u8> {
    let mut out = base.to_vec();
    for (off, bytes) in edits {
        out[*off..*off + bytes.len()].copy_from_slice(bytes);
    }
    out
}

/// Read an IPS file back into its records.
fn parse_ips(b: &[u8]) -> Vec<(usize, Vec<u8>)> {
    assert_eq!(&b[0..5], b"PATCH");
    let mut p = 5;
    let mut out = Vec::new();
    loop {
        if &b[p..p + 3] == b"EOF" {
            assert_eq!(p + 3, b.len());
            return out;
        }
        let off = ((b[p] as usize) << 16) | ((b[p + 1] as usize) << 8) | b[p + 2] as usize;
        let size = ((b[p + 3] as usize) << 8) | b[p + 4] as usize;
        out.push((off, b[p + 5..p + 5 + size].to_vec()));
        p += 5 + size;
    }
}

#[test]
fn diff_finds_maximal_runs() {
    let a = [0u8, 1, 2, 3, 4, 5, 6, 7];
    let b = [0u8, 9, 9, 3, 4, 5, 8, 8];
    let edits = diff_roms(&a, &b);
    assert_eq!(edits, vec![(1, vec![9, 9]), (6, vec![8, 8])]);
}

#[test]
fn identical_images_have_no_edits() {
    let a = [1u8, 2, 3];
    assert!(diff_roms(&a, &a).is_empty());
    assert!(diff_roms(&[], &[]).is_empty());
}

#[test]
fn run_at_start_and_whole_image() {
    let a = [0u8, 0, 0];
    let b = [1u8, 2, 3];
    assert_eq!(diff_roms(&a, &b), vec![(0, vec![1, 2, 3])]);
}

#[test]
fn applying_the_diff_restores_the_modified_image() {
    let a: Vec<u8> = (0..200u32).map(|i| (i * 7 % 256) as u8).collect();
    let mut b = a.clone();
    b[0] ^= 1;
    b[50] ^= 0xFF;
    b[51] ^= 0xFF;
    b[199] = b[199].wrapping_add(1);
    let edits = diff_roms(&a, &b);
    assert_eq!(edits.len(), 3);
    assert_eq!(apply(&a, &edits), b);
}

#[test]
fn ips_encoding_is_exact() {
    let edits = vec![(0x012345usize, vec![0xAA, 0xBB]), (0x10, vec![0x01])];
    let bytes = encode_ips(&edits);
    let mut expected = b"PATCH".to_vec();
    expected.extend_from_slice(&[0x01, 0x23, 0x45, 0x00, 0x02, 0xAA, 0xBB]);
    expected.extend_from_slice(&[0x00, 0x00, 0x10, 0x00, 0x01, 0x01]);
    expected.extend_from_slice(b"EOF");
    assert_eq!(bytes, expected);
}

#[test]
fn empty_ips_is_header_and_footer() {
    assert_eq!(encode_ips(&[]), b"PATCHEOF".to_vec());
}

#[test]
fn ips_of_diff_reads_back_and_restores() {
    let a = vec![0x11u8; 300];
    let mut b = a.clone();
    for i in 10..20 {
        b[i] = i as u8;
    }
    b[299] = 0;
    let edits = diff_roms(&a, &b);
    let file = encode_ips(&edits);
    let parsed = parse_ips(&file);
    assert_eq!(parsed, edits);
    assert_eq!(apply(&a, &parsed), b);
}

#[test]
fn ips_size_keeps_low_sixteen_bits() {
    let edits = vec![(0usize, vec![0u8; 0x10001])];
    let bytes = encode_ips(&edits);
    assert_eq!(&bytes[5..10], &[0x00, 0x00, 0x00, 0x00, 0x01]);
    assert_eq!(bytes.len(), 5 + 5 + 0x10001 + 3);
}
