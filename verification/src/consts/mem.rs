use vstd::prelude::*;

verus! {

pub const BYTE_E8: u16 = 0x00E8;
pub const BYTE_E9: u16 = 0x00E9;
pub const BYTE_EA: u16 = 0x00EA;
pub const BYTE_EB: u16 = 0x00EB;
pub const BYTE_EC: u16 = 0x00EC;
pub const BYTE_ED: u16 = 0x00ED;
pub const BYTE_EE: u16 = 0x00EE;
pub const BYTE_EF: u16 = 0x00EF;

pub const DURATION_OINTMENT: u16 = 0x0427;
/// Incremented every NMI; essentially a frame counter.
pub const INTERRUPT_COUNTER: u16 = 0x001A;
pub const CURRENT_SCREEN: u16 = 0x0063;
pub const CURRENT_LEVEL: u16 = 0x0024;
pub const HEALTH_FULL: u16 = 0x0431;
pub const HEALTH_FRAC: u16 = 0x0432;
pub const MANA_POINTS: u16 = 0x039A;

} // verus!
