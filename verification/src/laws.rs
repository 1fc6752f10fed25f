use vstd::arithmetic::div_mod::{lemma_mod_bound, lemma_mod_multiples_vanish, lemma_small_mod};
use vstd::prelude::*;

use crate::beta::{
    is_legal_opcode, spec_dispatch, spec_reg_read, spec_reg_write, MachineState,
};
use crate::error::ExecutionError;
use crate::isa::{literal_of, opcode_of, ra_of, rb_of, rc_of, sign_extend, spec_alu, AluKind};
use crate::mem::{lemma_word_round_trip, word_in_bounds};

verus! {

// ---------------------------------------------------------------------------
// The laws of the machine, stated over the specification functions that the
// executable contracts are written against.
// ---------------------------------------------------------------------------

/// Writing a general register (index 0..=30) and reading it back returns
/// the written value; a write to index 31 changes nothing, and index 31
/// always reads 0.
pub proof fn lemma_register_round_trip(regs: Seq<u32>, r: u32, val: u32)
    requires
        regs.len() == 31,
        r <= 31,
    ensures
        r <= 30 ==> spec_reg_read(spec_reg_write(regs, r, val), r) == val,
        r == 31 ==> spec_reg_write(regs, r, val) == regs,
        spec_reg_read(regs, 31) == 0,
{
}

/// Addition, subtraction and multiplication wrap silently modulo 2^32.
pub proof fn lemma_alu_wraparound(a: u32, b: u32)
    ensures
        spec_alu(AluKind::Add, a, b) == (a + b) % 0x1_0000_0000,
        spec_alu(AluKind::Sub, a, b) == (a - b) % 0x1_0000_0000,
        spec_alu(AluKind::Mul, a, b) == (a * b) % 0x1_0000_0000,
{
    let m: int = 0x1_0000_0000;
    if a + b <= u32::MAX {
        lemma_small_mod((a + b) as nat, m as nat);
    } else {
        lemma_mod_multiples_vanish(1, a + b - m, m);
        lemma_small_mod((a + b - m) as nat, m as nat);
    }
    if a >= b {
        lemma_small_mod((a - b) as nat, m as nat);
    } else {
        lemma_mod_multiples_vanish(-1, a - b + m, m);
        lemma_small_mod((a - b + m) as nat, m as nat);
    }
    lemma_mod_bound(a * b, m);
}

/// DIV or DIVC with a zero divisor fails with DivideByZero. By `tick`'s
/// contract every error leaves the machine unchanged, so no register is
/// mutated.
pub proof fn lemma_div_by_zero(s: MachineState, w: u32)
    requires
        (opcode_of(w) == 0x23 && spec_reg_read(s.regs, rb_of(w)) == 0) || (opcode_of(w) == 0x33
            && sign_extend(literal_of(w)) == 0),
    ensures
        spec_dispatch(s, w) == Err::<MachineState, ExecutionError>(ExecutionError::DivideByZero),
{
}

/// ST followed by LD through the same base register and literal yields the
/// stored value: the store writes register `rc` of the first instruction to
/// memory, the load reads it back into register `rc` of the second.
pub proof fn lemma_store_load_round_trip(
    s: MachineState,
    w_st: u32,
    w_ld: u32,
    s1: MachineState,
    s2: MachineState,
)
    requires
        s.regs.len() == 31,
        opcode_of(w_st) == 0x19,
        opcode_of(w_ld) == 0x18,
        ra_of(w_st) == ra_of(w_ld),
        literal_of(w_st) == literal_of(w_ld),
        rc_of(w_ld) <= 30,
        spec_dispatch(s, w_st) == Ok::<MachineState, ExecutionError>(s1),
        spec_dispatch(s1, w_ld) == Ok::<MachineState, ExecutionError>(s2),
    ensures
        spec_reg_read(s2.regs, rc_of(w_ld)) == spec_reg_read(s.regs, rc_of(w_st)),
{
    let ea = spec_reg_read(s.regs, ra_of(w_st)).wrapping_add(sign_extend(literal_of(w_st)));
    let c = spec_reg_read(s.regs, rc_of(w_st));
    assert(word_in_bounds(s.mem, ea));
    lemma_word_round_trip(s.mem, ea, c);
}

/// An opcode with no assigned operation fails with IllegalOpcode, and no
/// assigned opcode ever produces that error. By `tick`'s contract the
/// failure leaves the machine unchanged: the program counter does not
/// advance and no register or memory byte is touched.
pub proof fn lemma_illegal_opcode(s: MachineState, w: u32)
    ensures
        !is_legal_opcode(opcode_of(w)) ==> spec_dispatch(s, w) == Err::<
            MachineState,
            ExecutionError,
        >(ExecutionError::IllegalOpcode),
        is_legal_opcode(opcode_of(w)) ==> spec_dispatch(s, w) != Err::<
            MachineState,
            ExecutionError,
        >(ExecutionError::IllegalOpcode),
{
}

} // verus!
