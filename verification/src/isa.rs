use vstd::prelude::*;

verus! {

// ---------------------------------------------------------------------------
// Instruction layout
//
// Every instruction is one 32-bit word. The top 6 bits are the opcode. The
// remaining fields come in two formats that share their register fields:
//
//   register format:  rc in bits 25..=21, ra in bits 20..=16, rb in bits 15..=11
//   constant format:  rc in bits 25..=21, ra in bits 20..=16, a 16-bit
//                     two's-complement literal in bits 15..=0
//
// Decoding is total: every 32-bit word decodes to some opcode and operand
// fields. Opcodes with no assigned operation are an execution-time error.
// ---------------------------------------------------------------------------

/// The opcode: bits 31..=26 of the instruction word.
pub open spec fn opcode_of(w: u32) -> u32 {
    w >> 26
}

/// The destination register field: bits 25..=21.
pub open spec fn rc_of(w: u32) -> u32 {
    (w >> 21) & 0x1F
}

/// The operand-A register field: bits 20..=16.
pub open spec fn ra_of(w: u32) -> u32 {
    (w >> 16) & 0x1F
}

/// The operand-B register field: bits 15..=11 (register format only).
pub open spec fn rb_of(w: u32) -> u32 {
    (w >> 11) & 0x1F
}

/// The raw 16-bit literal field: bits 15..=0 (constant format only).
pub open spec fn literal_of(w: u32) -> u32 {
    w & 0xFFFF
}

/// Sign-extension of a 16-bit literal to 32 bits: a value with bit 15 set
/// has its sixteen high bits filled with ones.
pub open spec fn sign_extend(lit: u32) -> u32
    recommends
        lit <= 0xFFFF,
{
    if lit & 0x8000 != 0 {
        lit | 0xFFFF_0000
    } else {
        lit
    }
}

/// The value of a register word read as a two's-complement signed integer.
pub open spec fn to_signed(v: u32) -> int {
    if v >= 0x8000_0000 {
        v - 0x1_0000_0000
    } else {
        v as int
    }
}

/// Arithmetic (sign-preserving) right shift: the vacated high bits are
/// filled with copies of the sign bit.
pub open spec fn sra_shift(a: u32, sh: u32) -> u32
    recommends
        sh < 32,
{
    if a & 0x8000_0000 == 0 {
        a >> sh
    } else {
        (a >> sh) | !(0xFFFF_FFFFu32 >> sh)
    }
}

/// The pure two-operand operations of the execution unit. Division is kept
/// apart because it alone can fail (on a zero divisor).
#[derive(Clone, Copy, Debug, PartialEq, Eq)]
pub enum AluKind {
    Add,
    Sub,
    Mul,
    And,
    Or,
    Xor,
    Xnor,
    Shl,
    Shr,
    Sra,
    CmpEq,
    CmpLt,
    CmpLe,
}

/// The result each ALU operation computes from its two 32-bit operands.
/// Addition, subtraction and multiplication wrap modulo 2^32; shift counts
/// are taken modulo 32; the comparisons CmpLt and CmpLe are signed.
pub open spec fn spec_alu(k: AluKind, a: u32, b: u32) -> u32 {
    match k {
        AluKind::Add => a.wrapping_add(b),
        AluKind::Sub => a.wrapping_sub(b),
        AluKind::Mul => a.wrapping_mul(b),
        AluKind::And => a & b,
        AluKind::Or => a | b,
        AluKind::Xor => a ^ b,
        AluKind::Xnor => !(a ^ b),
        AluKind::Shl => a << (b & 0x1F),
        AluKind::Shr => a >> (b & 0x1F),
        AluKind::Sra => sra_shift(a, b & 0x1F),
        AluKind::CmpEq => if a == b { 1u32 } else { 0u32 },
        AluKind::CmpLt => if to_signed(a) < to_signed(b) { 1u32 } else { 0u32 },
        AluKind::CmpLe => if to_signed(a) <= to_signed(b) { 1u32 } else { 0u32 },
    }
}

/// Decodes the opcode field.
pub fn opcode(w: u32) -> (op: u32)
    ensures
        op == opcode_of(w),
        op <= 0x3F,
{
    proof {
        assert(w >> 26 <= 0x3F) by (bit_vector);
    }
    w >> 26
}

/// Decodes the three register fields `(rc, ra, rb)`. Each is masked to five
/// bits, so each is at most 31.
pub fn registers(w: u32) -> (t: (u32, u32, u32))
    ensures
        t.0 == rc_of(w),
        t.1 == ra_of(w),
        t.2 == rb_of(w),
        t.0 <= 31,
        t.1 <= 31,
        t.2 <= 31,
{
    proof {
        assert((w >> 21) & 0x1F <= 31) by (bit_vector);
        assert((w >> 16) & 0x1F <= 31) by (bit_vector);
        assert((w >> 11) & 0x1F <= 31) by (bit_vector);
    }
    ((w >> 21) & 0x1F, (w >> 16) & 0x1F, (w >> 11) & 0x1F)
}

/// Decodes the 16-bit literal field and sign-extends it to 32 bits.
pub fn literal(w: u32) -> (lit: u32)
    ensures
        lit == sign_extend(literal_of(w)),
{
    let raw = w & 0xFFFF;
    if raw & 0x8000 != 0 {
        raw | 0xFFFF_0000
    } else {
        raw
    }
}

/// Whether `a < b` when both words are read as signed integers.
fn signed_lt(a: u32, b: u32) -> (r: bool)
    ensures
        r == (to_signed(a) < to_signed(b)),
{
    let a_neg = a >= 0x8000_0000;
    let b_neg = b >= 0x8000_0000;
    if a_neg != b_neg {
        a_neg
    } else {
        a < b
    }
}

/// Computes one ALU operation.
pub fn alu(k: AluKind, a: u32, b: u32) -> (r: u32)
    ensures
        r == spec_alu(k, a, b),
{
    match k {
        AluKind::Add => a.wrapping_add(b),
        AluKind::Sub => a.wrapping_sub(b),
        AluKind::Mul => a.wrapping_mul(b),
        AluKind::And => a & b,
        AluKind::Or => a | b,
        AluKind::Xor => a ^ b,
        AluKind::Xnor => !(a ^ b),
        AluKind::Shl => {
            let sh = b & 0x1F;
            proof {
                assert(b & 0x1F < 32) by (bit_vector);
            }
            a << sh
        },
        AluKind::Shr => {
            let sh = b & 0x1F;
            proof {
                assert(b & 0x1F < 32) by (bit_vector);
            }
            a >> sh
        },
        AluKind::Sra => {
            let sh = b & 0x1F;
            proof {
                assert(b & 0x1F < 32) by (bit_vector);
            }
            if a & 0x8000_0000 == 0 {
                a >> sh
            } else {
                (a >> sh) | !(0xFFFF_FFFFu32 >> sh)
            }
        },
        AluKind::CmpEq => if a == b { 1 } else { 0 },
        AluKind::CmpLt => if signed_lt(a, b) { 1 } else { 0 },
        AluKind::CmpLe => if a == b || signed_lt(a, b) { 1 } else { 0 },
    }
}

} // verus!
