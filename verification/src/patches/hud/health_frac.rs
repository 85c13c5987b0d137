use vstd::prelude::*;

use crate::consts::mem;
use crate::subroutine::{
    prepare_ascii_seq, rts_seq, set_ascii_length_seq, set_ascii_position_seq, set_ascii_value_seq,
    show_ascii_seq, Subroutine,
};

verus! {

/// Bytes of the fractional-health HUD routine.
pub open spec fn health_frac_seq() -> Seq<u8> {
    set_ascii_value_seq(mem::HEALTH_FRAC) + prepare_ascii_seq() + set_ascii_position_seq(0x29)
        + set_ascii_length_seq(0x03) + show_ascii_seq() + rts_seq()
}

pub fn build_health_frac() -> (r: Subroutine)
    ensures
        r@ == health_frac_seq(),
{
    let mut frac = Subroutine::new();
    frac.set_ascii_value(mem::HEALTH_FRAC);
    frac.prepare_ascii();
    frac.set_ascii_position(0x29);
    frac.set_ascii_length(0x03);
    frac.show_ascii();
    frac.rts();
    assert(frac@ =~= health_frac_seq());
    frac
}

} // verus!
