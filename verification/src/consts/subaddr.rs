use vstd::prelude::*;

verus! {

/// Known subroutines of the fixed bank.
pub const SHOW_ASCII: u16 = 0xFA06;
pub const SUB_F990: u16 = 0xF990;

} // verus!
