use vstd::prelude::*;

use crate::consts::mem;
use crate::subroutine::{
    prepare_ascii_seq, rts_seq, set_ascii_length_seq, set_ascii_position_seq, set_ascii_value_seq,
    show_ascii_seq, Subroutine,
};

verus! {

/// Bytes of the level HUD routine.
pub open spec fn level_display_seq() -> Seq<u8> {
    set_ascii_value_seq(mem::CURRENT_LEVEL) + prepare_ascii_seq() + set_ascii_position_seq(0x21)
        + set_ascii_length_seq(0x01) + show_ascii_seq() + rts_seq()
}

pub fn build_level_display() -> (r: Subroutine)
    ensures
        r@ == level_display_seq(),
{
    let mut level = Subroutine::new();
    level.set_ascii_value(mem::CURRENT_LEVEL);
    level.prepare_ascii();
    level.set_ascii_position(0x21);
    level.set_ascii_length(0x01);
    level.show_ascii();
    level.rts();
    assert(level@ =~= level_display_seq());
    level
}

} // verus!
