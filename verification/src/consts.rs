use vstd::prelude::*;

pub mod mem;
pub mod op;
pub mod subaddr;

verus! {

/// Length of the iNES header that precedes the PRG banks in a headered dump.
pub const NES_HEADER_LEN: usize = 16;

/// Size of one PRG bank in bytes.
pub const BANK_SIZE: usize = 0x4000;

/// The fixed bank (always mapped at $C000).
pub const TARGET_BANK: usize = 15;

/// CPU address at which the fixed bank is mapped.
pub const BANK_BASE_ADDR: u16 = 0xC000;

/// Banks scanned for trailing free space: (bank, first CPU address, CPU address past the end).
/// The fixed bank stops at $FFE0, where the title string and the vectors live.
pub const SCAN_BANKS: [(usize, u16, u16); 3] = [
    (12, 0x8000, 0xC000),
    (14, 0x8000, 0xC000),
    (15, 0xC000, 0xFFE0),
];

/// Low byte of a 16-bit value.
pub open spec fn lo(v: int) -> u8 {
    (v % 256) as u8
}

/// High byte of a 16-bit value.
pub open spec fn hi(v: int) -> u8 {
    ((v / 256) % 256) as u8
}

/// Little-endian encoding of a 16-bit word.
pub open spec fn le16(v: u16) -> Seq<u8> {
    seq![lo(v as int), hi(v as int)]
}

/// A three-byte 6502 instruction with an absolute operand.
pub open spec fn abs_instr(opcode: u8, addr: u16) -> Seq<u8> {
    seq![opcode, lo(addr as int), hi(addr as int)]
}

/// `JSR addr`.
pub open spec fn jsr_seq(addr: u16) -> Seq<u8> {
    abs_instr(op::JSR, addr)
}

/// `JMP addr`.
pub open spec fn jmp_seq(addr: u16) -> Seq<u8> {
    abs_instr(op::JMP_ABS, addr)
}

/// Low byte of `v`.
pub fn lo_byte(v: u16) -> (r: u8)
    ensures
        r == lo(v as int),
{
    let r = (v & 0xFF) as u8;
    assert((v & 0xFF) as u8 == v % 256) by (bit_vector);
    r
}

/// High byte of `v`.
pub fn hi_byte(v: u16) -> (r: u8)
    ensures
        r == hi(v as int),
{
    let r = (v >> 8) as u8;
    assert((v >> 8) as u8 == (v / 256) % 256) by (bit_vector);
    r
}

/// Encode `JSR addr`.
pub fn jsr_bytes(addr: u16) -> (r: [u8; 3])
    ensures
        r@ == jsr_seq(addr),
{
    let r = [op::JSR, lo_byte(addr), hi_byte(addr)];
    assert(r@ =~= jsr_seq(addr));
    r
}

/// Encode `JMP addr`.
pub fn jmp_bytes(addr: u16) -> (r: [u8; 3])
    ensures
        r@ == jmp_seq(addr),
{
    let r = [op::JMP_ABS, lo_byte(addr), hi_byte(addr)];
    assert(r@ =~= jmp_seq(addr));
    r
}

} // verus!
