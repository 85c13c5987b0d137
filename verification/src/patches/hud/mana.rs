use vstd::prelude::*;

use crate::consts::{abs_instr, mem, op};
use crate::subroutine::{
    prepare_ascii_seq, rts_seq, set_ascii_length_seq, set_ascii_position_seq, show_ascii_seq, Subroutine,
};

verus! {

/// Bytes of the mana HUD routine.
pub open spec fn mana_seq() -> Seq<u8> {
    abs_instr(op::STA_ABS, mem::MANA_POINTS) + abs_instr(op::STA_ABS, mem::BYTE_EC) + abs_instr(
        op::STA_ABS,
        mem::BYTE_EB,
    ) + prepare_ascii_seq() + set_ascii_position_seq(0x2D) + abs_instr(op::STY_ABS, mem::BYTE_EA)
        + set_ascii_length_seq(0x02) + show_ascii_seq() + abs_instr(0xAC, mem::BYTE_EA) + abs_instr(
        op::LDA_ABS,
        mem::BYTE_EB,
    ) + rts_seq()
}

pub fn build_mana() -> (r: Subroutine)
    ensures
        r@ == mana_seq(),
{
    let mut mana = Subroutine::new();

    // Save mana → staging
    mana.add_abs(op::STA_ABS, mem::MANA_POINTS);
    mana.add_abs(op::STA_ABS, mem::BYTE_EC);
    mana.add_abs(op::STA_ABS, mem::BYTE_EB);

    mana.prepare_ascii();
    mana.set_ascii_position(0x2D);
    mana.add_abs(op::STY_ABS, mem::BYTE_EA);
    mana.set_ascii_length(0x02);
    mana.show_ascii();

    // Restore Y, A
    mana.add_abs(0xAC, mem::BYTE_EA);  // LDY abs
    mana.add_abs(op::LDA_ABS, mem::BYTE_EB);

    mana.rts();
    assert(mana@ =~= mana_seq());
    mana
}

} // verus!
