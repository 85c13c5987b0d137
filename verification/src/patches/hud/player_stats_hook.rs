use vstd::prelude::*;

use crate::consts::{abs_instr, op};
use crate::subroutine::{rts_seq, Subroutine};

verus! {

pub fn build_player_stats_hook() -> (r: Subroutine)
    ensures
        r@ == abs_instr(op::JSR, 0xFE60) + rts_seq(),
{
    let mut hook = Subroutine::new();
    hook.jsr(0xFE60);  // jump into mana routine
    hook.rts();  // restore flow
    assert(hook@ =~= abs_instr(op::JSR, 0xFE60) + rts_seq());
    hook
}

} // verus!
