//! Laws that relate several instructions, proved over the instruction
//! relations of `semantics`.

use vstd::prelude::*;
use crate::cpu::CPU;
use crate::semantics::{spec_call, spec_ret};

verus! {

/// A 2nnn call and a later 00EE return round-trip: whatever ran in
/// between, as long as it left the stack and the stack pointer alone, the
/// return lands two bytes past the call site and restores the call depth
/// to what it was before the call.
pub proof fn lemma_call_ret_round_trip(s0: CPU, s1: CPU, s2: CPU, s3: CPU)
    requires
        s0.wf(),
        s0.sp < 16,
        spec_call(s0, s1),
        s2.stack@ == s1.stack@,
        s2.sp == s1.sp,
        spec_ret(s2, s3),
    ensures
        s3.pc == s0.pc + 2,
        s3.sp == s0.sp,
{
}

} // verus!
