use vstd::prelude::*;

use crate::consts::{abs_instr, mem, op};
use crate::subroutine::{
    prepare_ascii_seq, rts_seq, set_ascii_length_seq, set_ascii_position_seq, set_ascii_value_seq,
    show_ascii_seq, Subroutine,
};

verus! {

/// Bytes of the frame-counter HUD routine.
pub open spec fn frame_counter_seq() -> Seq<u8> {
    set_ascii_value_seq(mem::INTERRUPT_COUNTER) + abs_instr(op::JSR, 0xCA25) + prepare_ascii_seq()
        + set_ascii_position_seq(0x38) + set_ascii_length_seq(0x03) + show_ascii_seq() + rts_seq()
}

pub fn build_frame_counter() -> (r: Subroutine)
    ensures
        r@ == frame_counter_seq(),
{
    let mut frame = Subroutine::new();

    // LDA InterruptCounter → EC
    frame.set_ascii_value(mem::INTERRUPT_COUNTER);
    frame.jsr(0xCA25);
    frame.prepare_ascii();

    // ASCII Position = 0x38, length = 3
    frame.set_ascii_position(0x38);
    frame.set_ascii_length(0x03);

    frame.show_ascii();
    frame.rts();
    assert(frame@ =~= frame_counter_seq());
    frame
}

} // verus!
