use vstd::prelude::*;

use crate::consts::{abs_instr, mem, op};
use crate::subroutine::{
    prepare_ascii_seq, rts_seq, set_ascii_length_seq, set_ascii_position_seq, set_ascii_value_seq,
    show_ascii_seq, Subroutine,
};

verus! {

/// Bytes of the ointment decrement hook.
pub open spec fn ointment_decrement_seq() -> Seq<u8> {
    abs_instr(op::DEC_ABS, mem::DURATION_OINTMENT) + abs_instr(op::JSR, 0xFD00) + abs_instr(
        op::LDA_ABS,
        mem::DURATION_OINTMENT,
    ) + rts_seq()
}

/// Bytes of the ointment HUD routine.
pub open spec fn ointment_draw_seq() -> Seq<u8> {
    set_ascii_value_seq(mem::DURATION_OINTMENT) + prepare_ascii_seq() + set_ascii_position_seq(0x78)
        + set_ascii_length_seq(0x02) + show_ascii_seq() + rts_seq()
}

/// Decrement + forward (called from hook)
pub fn build_ointment_decrement() -> (r: Subroutine)
    ensures
        r@ == ointment_decrement_seq(),
{
    let mut dec = Subroutine::new();
    dec.add_abs(op::DEC_ABS, mem::DURATION_OINTMENT);
    dec.jsr(0xFD00);  // ointment draw
    dec.add_abs(op::LDA_ABS, mem::DURATION_OINTMENT);
    dec.rts();
    assert(dec@ =~= ointment_decrement_seq());
    dec
}

/// Draw ointment count
pub fn build_ointment_draw() -> (r: Subroutine)
    ensures
        r@ == ointment_draw_seq(),
{
    let mut draw = Subroutine::new();
    draw.set_ascii_value(mem::DURATION_OINTMENT);
    draw.prepare_ascii();
    draw.set_ascii_position(0x78);
    draw.set_ascii_length(0x02);
    draw.show_ascii();
    draw.rts();
    assert(draw@ =~= ointment_draw_seq());
    draw
}

} // verus!
