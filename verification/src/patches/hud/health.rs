use vstd::prelude::*;

use crate::consts::{abs_instr, mem, op};
use crate::subroutine::{
    prepare_ascii_seq, rts_seq, set_ascii_length_seq, set_ascii_position_seq, show_ascii_seq, Subroutine,
};

verus! {

/// Bytes of the health HUD routine.
pub open spec fn health_seq() -> Seq<u8> {
    abs_instr(op::STA_ABS, mem::HEALTH_FULL) + abs_instr(op::STA_ABS, mem::BYTE_EC) + abs_instr(
        op::STA_ABS,
        mem::BYTE_EB,
    ) + prepare_ascii_seq() + set_ascii_position_seq(0x26) + set_ascii_length_seq(0x02)
        + show_ascii_seq() + abs_instr(op::JSR, 0xFEA0) + abs_instr(op::LDA_ABS, mem::BYTE_EB)
        + rts_seq()
}

pub fn build_health() -> (r: Subroutine)
    ensures
        r@ == health_seq(),
{
    let mut health = Subroutine::new();

    // Save health into memory + staging bytes
    health.add_abs(op::STA_ABS, mem::HEALTH_FULL);
    health.add_abs(op::STA_ABS, mem::BYTE_EC);
    health.add_abs(op::STA_ABS, mem::BYTE_EB);

    health.prepare_ascii();
    health.set_ascii_position(0x26);
    health.set_ascii_length(0x02);
    health.show_ascii();

    // Call fractional draw at $FEA0
    health.jsr(0xFEA0);

    // Restore A from EB
    health.add_abs(op::LDA_ABS, mem::BYTE_EB);

    health.rts();
    assert(health@ =~= health_seq());
    health
}

} // verus!
