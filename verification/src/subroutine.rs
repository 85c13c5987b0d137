use vstd::prelude::*;

use crate::consts::{abs_instr, le16, mem, op, subaddr};
use crate::rom::{cpu_fits, write_cpu, Rom};

verus! {

/// Bytes of `LDA ptr / STA $EC`: stage a value for the ASCII renderer.
pub open spec fn set_ascii_value_seq(ptr: u16) -> Seq<u8> {
    abs_instr(op::LDA_ABS, ptr) + abs_instr(op::STA_ABS, mem::BYTE_EC)
}

/// Bytes of `LDA #0 / STA $ED / STA $EE / LDA #$20 / STA $E9`.
pub open spec fn prepare_ascii_seq() -> Seq<u8> {
    seq![op::LDA_IMM, 0x00u8] + abs_instr(op::STA_ABS, mem::BYTE_ED) + abs_instr(
        op::STA_ABS,
        mem::BYTE_EE,
    ) + seq![op::LDA_IMM, 0x20u8] + abs_instr(op::STA_ABS, mem::BYTE_E9)
}

/// Bytes of `LDY #len`.
pub open spec fn set_ascii_length_seq(len: u8) -> Seq<u8> {
    seq![op::LDY_IMM, len]
}

/// Bytes of `LDA #pos / STA $E8`.
pub open spec fn set_ascii_position_seq(pos: u8) -> Seq<u8> {
    seq![op::LDA_IMM, pos] + abs_instr(op::STA_ABS, mem::BYTE_E8)
}

/// Bytes of `JSR ShowASCII`.
pub open spec fn show_ascii_seq() -> Seq<u8> {
    abs_instr(op::JSR, subaddr::SHOW_ASCII)
}

/// Bytes of `RTS`.
pub open spec fn rts_seq() -> Seq<u8> {
    seq![op::RTS]
}

/// A 6502 routine assembled byte by byte.
pub struct Subroutine {
    bytes: Vec<u8>,
}

impl View for Subroutine {
    type V = Seq<u8>;

    closed spec fn view(&self) -> Seq<u8> {
        self.bytes@
    }
}

impl Subroutine {
    pub fn new() -> (r: Subroutine)
        ensures
            r@ == Seq::<u8>::empty(),
    {
        Self { bytes: Vec::with_capacity(256) }
    }

    fn le16(v: u16) -> (r: [u8; 2])
        ensures
            r@ == le16(v),
    {
        let r = [crate::consts::lo_byte(v), crate::consts::hi_byte(v)];
        assert(r@ =~= le16(v));
        r
    }

    pub fn add(&mut self, opcode: u8)
        ensures
            final(self)@ == old(self)@.push(opcode),
    {
        self.bytes.push(opcode);
    }

    pub fn add_imm(&mut self, opcode: u8, val: u8)
        ensures
            final(self)@ == old(self)@ + seq![opcode, val],
    {
        self.bytes.push(opcode);
        self.bytes.push(val);
        assert(self@ =~= old(self)@ + seq![opcode, val]);
    }

    pub fn add_abs(&mut self, opcode: u8, addr: u16)
        ensures
            final(self)@ == old(self)@ + abs_instr(opcode, addr),
    {
        self.bytes.push(opcode);
        let w = Self::le16(addr);
        self.bytes.push(w[0]);
        self.bytes.push(w[1]);
        assert(self@ =~= old(self)@ + abs_instr(opcode, addr));
    }

    pub fn jsr(&mut self, target: u16)
        ensures
            final(self)@ == old(self)@ + abs_instr(op::JSR, target),
    {
        self.add_abs(op::JSR, target);
    }

    pub fn jmp(&mut self, target: u16)
        ensures
            final(self)@ == old(self)@ + abs_instr(op::JMP_ABS, target),
    {
        self.add_abs(op::JMP_ABS, target);
    }

    pub fn rts(&mut self)
        ensures
            final(self)@ == old(self)@ + rts_seq(),
    {
        self.add(op::RTS);
        assert(final(self)@ =~= old(self)@ + rts_seq());
    }

    pub fn set_ascii_value(&mut self, ptr: u16)
        ensures
            final(self)@ == old(self)@ + set_ascii_value_seq(ptr),
    {
        self.add_abs(op::LDA_ABS, ptr);
        self.add_abs(op::STA_ABS, mem::BYTE_EC);
        assert(final(self)@ =~= old(self)@ + set_ascii_value_seq(ptr));
    }

    // Clear ED/EE and set row base to $20
    pub fn prepare_ascii(&mut self)
        ensures
            final(self)@ == old(self)@ + prepare_ascii_seq(),
    {
        // wipe ED/EE
        self.add_imm(op::LDA_IMM, 0x00);
        self.add_abs(op::STA_ABS, mem::BYTE_ED);
        self.add_abs(op::STA_ABS, mem::BYTE_EE);

        // base index row to $20
        self.add_imm(op::LDA_IMM, 0x20);
        self.add_abs(op::STA_ABS, mem::BYTE_E9);
        assert(final(self)@ =~= old(self)@ + prepare_ascii_seq());
    }

    pub fn set_ascii_length(&mut self, len: u8)
        ensures
            final(self)@ == old(self)@ + set_ascii_length_seq(len),
    {
        self.add_imm(op::LDY_IMM, len);
    }

    pub fn set_ascii_position(&mut self, pos: u8)
        ensures
            final(self)@ == old(self)@ + set_ascii_position_seq(pos),
    {
        self.add_imm(op::LDA_IMM, pos);
        self.add_abs(op::STA_ABS, mem::BYTE_E8);
        assert(final(self)@ =~= old(self)@ + set_ascii_position_seq(pos));
    }

    pub fn show_ascii(&mut self)
        ensures
            final(self)@ == old(self)@ + show_ascii_seq(),
    {
        self.jsr(subaddr::SHOW_ASCII);
    }

    /// Write the routine at CPU address `dest_cpu` of `bank`.
    pub fn add_to_rom(self, dest_cpu: u16, bank: usize, rom: &mut Rom)
        requires
            cpu_fits(old(rom)@, bank as int, dest_cpu as int, self@.len() as int),
        ensures
            final(rom)@ == write_cpu(old(rom)@, bank as int, dest_cpu as int, self@),
    {
        let offset = rom.cpu_to_file_offset(bank, dest_cpu);
        rom.write_slice(offset, self.bytes.as_slice());
    }

    /// Return the raw bytes of the subroutine
    pub fn bytes(&self) -> (r: &[u8])
        ensures
            r@ == self@,
    {
        self.bytes.as_slice()
    }

    pub fn len(&self) -> (r: usize)
        ensures
            r == self@.len(),
    {
        self.bytes.len()
    }

    pub fn is_empty(&self) -> (r: bool)
        ensures
            r == (self@.len() == 0),
    {
        self.bytes.is_empty()
    }
}

} // verus!
