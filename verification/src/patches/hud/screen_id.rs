use vstd::prelude::*;

use crate::consts::{abs_instr, mem, op};
use crate::subroutine::{
    prepare_ascii_seq, rts_seq, set_ascii_length_seq, set_ascii_position_seq, set_ascii_value_seq,
    show_ascii_seq, Subroutine,
};

verus! {

/// Bytes of the screen-id HUD routine.
pub open spec fn screen_id_seq() -> Seq<u8> {
    abs_instr(op::JSR, 0xC205) + abs_instr(op::JSR, 0xFD60) + set_ascii_value_seq(
        mem::CURRENT_SCREEN,
    ) + prepare_ascii_seq() + set_ascii_position_seq(0x23) + set_ascii_length_seq(0x02)
        + show_ascii_seq() + rts_seq()
}

pub fn build_screen_id() -> (r: Subroutine)
    ensures
        r@ == screen_id_seq(),
{
    let mut screen_id = Subroutine::new();
    screen_id.jsr(0xC205);
    screen_id.jsr(0xFD60);  // call into level_display routine
    screen_id.set_ascii_value(mem::CURRENT_SCREEN);
    screen_id.prepare_ascii();
    screen_id.set_ascii_position(0x23);
    screen_id.set_ascii_length(0x02);
    screen_id.show_ascii();
    screen_id.rts();
    assert(screen_id@ =~= screen_id_seq());
    screen_id
}

} // verus!
