use vstd::prelude::*;

verus! {

pub const JSR: u8 = 0x20;
pub const RTS: u8 = 0x60;
pub const JMP_ABS: u8 = 0x4C;

pub const LDA_ABS: u8 = 0xAD;
pub const STA_ABS: u8 = 0x8D;
pub const STY_ABS: u8 = 0x8C;
pub const LDY_IMM: u8 = 0xA0;
pub const LDA_IMM: u8 = 0xA9;

pub const DEC_ABS: u8 = 0xCE;

} // verus!
