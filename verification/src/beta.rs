use vstd::prelude::*;

use crate::error::ExecutionError;
use crate::isa::{
    alu, literal, literal_of, opcode, opcode_of, ra_of, rb_of, rc_of, registers, sign_extend,
    spec_alu, AluKind,
};
use crate::mem::{put_word, word_at, word_in_bounds, Mem};

verus! {

// ---------------------------------------------------------------------------
// The machine: program counter, halted flag, 31 general registers with a
// hardwired-zero slot at index 31, and a byte memory. One call to `tick`
// fetches the word at the program counter, decodes it, dispatches exactly
// one operation, and leaves the program counter on the next instruction.
//
// The whole cycle is specified by the interpreter `spec_step` below; `tick`
// is proved to agree with it exactly, and to leave the machine unchanged
// whenever it reports an error.
// ---------------------------------------------------------------------------

/// The mathematical state of the machine: what an observer can see between
/// cycles.
#[verifier::ext_equal]
pub struct MachineState {
    pub halted: bool,
    pub pc: u32,
    /// The 31 general registers, indices 0..=30. Index 31 is the hardwired
    /// zero register and is not stored.
    pub regs: Seq<u32>,
    pub mem: Seq<u8>,
}

/// All 31 general registers zeroed.
pub open spec fn zero_regs() -> Seq<u32> {
    Seq::new(31, |i: int| 0u32)
}

/// The value a register read yields: index 31 always reads 0.
pub open spec fn spec_reg_read(regs: Seq<u32>, r: u32) -> u32
    recommends
        regs.len() == 31,
        r <= 31,
{
    if r == 31 {
        0u32
    } else {
        regs[r as int]
    }
}

/// The register file after a write: a write to index 31 is discarded.
pub open spec fn spec_reg_write(regs: Seq<u32>, r: u32, val: u32) -> Seq<u32>
    recommends
        regs.len() == 31,
        r <= 31,
{
    if r == 31 {
        regs
    } else {
        regs.update(r as int, val)
    }
}

/// The address of the instruction following the one at `pc`.
pub open spec fn pc_next(pc: u32) -> u32 {
    pc.wrapping_add(4)
}

/// HALT: the halted flag is raised; registers, memory and the program
/// counter keep their values, so the machine stays on the halt instruction.
pub open spec fn spec_halt(s: MachineState) -> MachineState {
    MachineState { halted: true, pc: s.pc, regs: s.regs, mem: s.mem }
}

/// A register-format ALU operation: `rc := a op b` with both operands read
/// from the register file; the program counter advances to the next
/// instruction.
pub open spec fn spec_alu_reg(s: MachineState, w: u32, k: AluKind) -> MachineState {
    let a = spec_reg_read(s.regs, ra_of(w));
    let b = spec_reg_read(s.regs, rb_of(w));
    MachineState {
        halted: s.halted,
        pc: pc_next(s.pc),
        regs: spec_reg_write(s.regs, rc_of(w), spec_alu(k, a, b)),
        mem: s.mem,
    }
}

/// A constant-format ALU operation: `rc := a op lit` with the sign-extended
/// literal as second operand.
pub open spec fn spec_alu_const(s: MachineState, w: u32, k: AluKind) -> MachineState {
    let a = spec_reg_read(s.regs, ra_of(w));
    let b = sign_extend(literal_of(w));
    MachineState {
        halted: s.halted,
        pc: pc_next(s.pc),
        regs: spec_reg_write(s.regs, rc_of(w), spec_alu(k, a, b)),
        mem: s.mem,
    }
}

/// DIV and DIVC: unsigned integer division `rc := a / b`. A zero divisor
/// fails with DivideByZero and changes nothing.
pub open spec fn spec_div(s: MachineState, w: u32, const_form: bool) -> Result<
    MachineState,
    ExecutionError,
> {
    let a = spec_reg_read(s.regs, ra_of(w));
    let b = if const_form {
        sign_extend(literal_of(w))
    } else {
        spec_reg_read(s.regs, rb_of(w))
    };
    if b == 0 {
        Err(ExecutionError::DivideByZero)
    } else {
        Ok(
            MachineState {
                halted: s.halted,
                pc: pc_next(s.pc),
                regs: spec_reg_write(s.regs, rc_of(w), a / b),
                mem: s.mem,
            },
        )
    }
}

/// JMP: `rc` receives the return address, then the program counter is set
/// to the word-aligned operand-A value. The operand is read after the
/// return address is written, so `ra == rc` jumps to the return address.
pub open spec fn spec_jmp(s: MachineState, w: u32) -> MachineState {
    let regs2 = spec_reg_write(s.regs, rc_of(w), pc_next(s.pc));
    MachineState {
        halted: s.halted,
        pc: spec_reg_read(regs2, ra_of(w)) & 0xFFFF_FFFC,
        regs: regs2,
        mem: s.mem,
    }
}

/// BEQ and BNE: `rc` receives the return address in either case; if the
/// operand-A value (read before that write) meets the branch condition, the
/// program counter becomes `pc_next + lit*4`, else the next instruction.
pub open spec fn spec_branch(s: MachineState, w: u32, on_nonzero: bool) -> MachineState {
    let a = spec_reg_read(s.regs, ra_of(w));
    let target = pc_next(s.pc).wrapping_add(sign_extend(literal_of(w)).wrapping_mul(4));
    let taken = if on_nonzero {
        a != 0
    } else {
        a == 0
    };
    MachineState {
        halted: s.halted,
        pc: if taken {
            target
        } else {
            pc_next(s.pc)
        },
        regs: spec_reg_write(s.regs, rc_of(w), pc_next(s.pc)),
        mem: s.mem,
    }
}

/// LD: `rc := memory[a + lit]` as a big-endian word; fails with OutOfBounds
/// and changes nothing if the access leaves the store.
pub open spec fn spec_ld(s: MachineState, w: u32) -> Result<MachineState, ExecutionError> {
    let ea = spec_reg_read(s.regs, ra_of(w)).wrapping_add(sign_extend(literal_of(w)));
    if word_in_bounds(s.mem, ea) {
        Ok(
            MachineState {
                halted: s.halted,
                pc: pc_next(s.pc),
                regs: spec_reg_write(s.regs, rc_of(w), word_at(s.mem, ea)),
                mem: s.mem,
            },
        )
    } else {
        Err(ExecutionError::OutOfBounds)
    }
}

/// LDR: `rc := memory[pc_next + lit*4]`; the operand-A field is ignored.
pub open spec fn spec_ldr(s: MachineState, w: u32) -> Result<MachineState, ExecutionError> {
    let ea = pc_next(s.pc).wrapping_add(sign_extend(literal_of(w)).wrapping_mul(4));
    if word_in_bounds(s.mem, ea) {
        Ok(
            MachineState {
                halted: s.halted,
                pc: pc_next(s.pc),
                regs: spec_reg_write(s.regs, rc_of(w), word_at(s.mem, ea)),
                mem: s.mem,
            },
        )
    } else {
        Err(ExecutionError::OutOfBounds)
    }
}

/// ST: the current value of register `rc` is written as a big-endian word
/// to `memory[a + lit]`; fails with OutOfBounds and changes nothing if the
/// access leaves the store.
pub open spec fn spec_st(s: MachineState, w: u32) -> Result<MachineState, ExecutionError> {
    let ea = spec_reg_read(s.regs, ra_of(w)).wrapping_add(sign_extend(literal_of(w)));
    if word_in_bounds(s.mem, ea) {
        Ok(
            MachineState {
                halted: s.halted,
                pc: pc_next(s.pc),
                regs: s.regs,
                mem: put_word(s.mem, ea, spec_reg_read(s.regs, rc_of(w))),
            },
        )
    } else {
        Err(ExecutionError::OutOfBounds)
    }
}

/// The opcodes with an assigned operation.
pub open spec fn is_legal_opcode(op: u32) -> bool {
    ||| op == 0x00
    ||| op == 0x18
    ||| op == 0x19
    ||| op == 0x1B
    ||| op == 0x1C
    ||| op == 0x1D
    ||| op == 0x1F
    ||| (0x20 <= op <= 0x2E && op != 0x27)
    ||| (0x30 <= op <= 0x3E && op != 0x37)
}

/// The opcode dispatch table: what executing the already-fetched
/// instruction word `w` does to the machine state `s`.
pub open spec fn spec_dispatch(s: MachineState, w: u32) -> Result<MachineState, ExecutionError> {
    let op = opcode_of(w);
    if op == 0x00 {
        Ok(spec_halt(s))
    } else if op == 0x20 {
        Ok(spec_alu_reg(s, w, AluKind::Add))
    } else if op == 0x30 {
        Ok(spec_alu_const(s, w, AluKind::Add))
    } else if op == 0x21 {
        Ok(spec_alu_reg(s, w, AluKind::Sub))
    } else if op == 0x31 {
        Ok(spec_alu_const(s, w, AluKind::Sub))
    } else if op == 0x22 {
        Ok(spec_alu_reg(s, w, AluKind::Mul))
    } else if op == 0x32 {
        Ok(spec_alu_const(s, w, AluKind::Mul))
    } else if op == 0x23 {
        spec_div(s, w, false)
    } else if op == 0x33 {
        spec_div(s, w, true)
    } else if op == 0x24 {
        Ok(spec_alu_reg(s, w, AluKind::CmpEq))
    } else if op == 0x34 {
        Ok(spec_alu_const(s, w, AluKind::CmpEq))
    } else if op == 0x25 {
        Ok(spec_alu_reg(s, w, AluKind::CmpLt))
    } else if op == 0x35 {
        Ok(spec_alu_const(s, w, AluKind::CmpLt))
    } else if op == 0x26 {
        Ok(spec_alu_reg(s, w, AluKind::CmpLe))
    } else if op == 0x36 {
        Ok(spec_alu_const(s, w, AluKind::CmpLe))
    } else if op == 0x28 {
        Ok(spec_alu_reg(s, w, AluKind::And))
    } else if op == 0x38 {
        Ok(spec_alu_const(s, w, AluKind::And))
    } else if op == 0x29 {
        Ok(spec_alu_reg(s, w, AluKind::Or))
    } else if op == 0x39 {
        Ok(spec_alu_const(s, w, AluKind::Or))
    } else if op == 0x2A {
        Ok(spec_alu_reg(s, w, AluKind::Xor))
    } else if op == 0x3A {
        Ok(spec_alu_const(s, w, AluKind::Xor))
    } else if op == 0x2B {
        Ok(spec_alu_reg(s, w, AluKind::Xnor))
    } else if op == 0x3B {
        Ok(spec_alu_const(s, w, AluKind::Xnor))
    } else if op == 0x2C {
        Ok(spec_alu_reg(s, w, AluKind::Shl))
    } else if op == 0x3C {
        Ok(spec_alu_const(s, w, AluKind::Shl))
    } else if op == 0x2D {
        Ok(spec_alu_reg(s, w, AluKind::Shr))
    } else if op == 0x3D {
        Ok(spec_alu_const(s, w, AluKind::Shr))
    } else if op == 0x2E {
        Ok(spec_alu_reg(s, w, AluKind::Sra))
    } else if op == 0x3E {
        Ok(spec_alu_const(s, w, AluKind::Sra))
    } else if op == 0x1B {
        Ok(spec_jmp(s, w))
    } else if op == 0x1C {
        Ok(spec_branch(s, w, false))
    } else if op == 0x1D {
        Ok(spec_branch(s, w, true))
    } else if op == 0x18 {
        spec_ld(s, w)
    } else if op == 0x1F {
        spec_ldr(s, w)
    } else if op == 0x19 {
        spec_st(s, w)
    } else {
        Err(ExecutionError::IllegalOpcode)
    }
}

/// One whole cycle. A halted machine does nothing. Otherwise the word at
/// the program counter is fetched (OutOfBounds if the fetch leaves the
/// store) and dispatched. Every error leaves the state as it was.
pub open spec fn spec_step(s: MachineState) -> Result<MachineState, ExecutionError> {
    if s.halted {
        Ok(s)
    } else if !word_in_bounds(s.mem, s.pc) {
        Err(ExecutionError::OutOfBounds)
    } else {
        spec_dispatch(s, word_at(s.mem, s.pc))
    }
}

pub struct Beta {
    halted: bool,
    pc: u32,
    register: Vec<u32>,
    mem: Mem,
}

impl View for Beta {
    type V = MachineState;

    closed spec fn view(&self) -> MachineState {
        MachineState { halted: self.halted, pc: self.pc, regs: self.register@, mem: self.mem@ }
    }
}

/// A register file of 31 zeroed slots.
fn zeroed_registers() -> (v: Vec<u32>)
    ensures
        v@ == zero_regs(),
{
    let mut v: Vec<u32> = Vec::new();
    while v.len() < 31
        invariant
            v@.len() <= 31,
            forall|i: int| 0 <= i < v@.len() ==> v@[i] == 0u32,
        decreases 31 - v@.len(),
    {
        v.push(0u32);
    }
    proof {
        assert(v@ =~= zero_regs());
    }
    v
}

impl Beta {
    /// The register file always holds exactly its 31 general slots.
    pub closed spec fn wf(self) -> bool {
        self.register@.len() == 31
    }

    /// A machine with `size` bytes of zeroed memory, all registers and the
    /// program counter zeroed, and the halted flag down.
    pub fn new(size: usize) -> (b: Beta)
        ensures
            b.wf(),
            b@ == (MachineState {
                halted: false,
                pc: 0,
                regs: zero_regs(),
                mem: Seq::new(size as nat, |i: int| 0u8),
            }),
    {
        Beta { halted: false, pc: 0, register: zeroed_registers(), mem: Mem::new(size) }
    }

    /// Re-zeros the program counter and every register and lowers the
    /// halted flag; memory keeps its contents.
    pub fn reset(&mut self)
        requires
            old(self).wf(),
        ensures
            final(self).wf(),
            final(self)@ == (MachineState {
                halted: false,
                pc: 0,
                regs: zero_regs(),
                mem: old(self)@.mem,
            }),
    {
        self.pc = 0;
        self.register = zeroed_registers();
        self.halted = false;
    }

    /// Whether the machine has executed HALT since the last reset.
    pub fn halted(&self) -> (h: bool)
        ensures
            h == self@.halted,
    {
        self.halted
    }

    /// The current program counter.
    pub fn pc(&self) -> (p: u32)
        ensures
            p == self@.pc,
    {
        self.pc
    }

    /// Reads register `r`; index 31 always reads 0.
    pub fn read_reg(&self, r: u32) -> (v: u32)
        requires
            self.wf(),
            r <= 31,
        ensures
            v == spec_reg_read(self@.regs, r),
    {
        if r == 31 {
            0
        } else {
            self.register[r as usize]
        }
    }

    /// Writes register `r`; a write to index 31 is silently discarded.
    /// Nothing but the register file changes.
    pub fn write_reg(&mut self, r: u32, val: u32)
        requires
            old(self).wf(),
            r <= 31,
        ensures
            final(self).wf(),
            final(self)@ == (MachineState {
                halted: old(self)@.halted,
                pc: old(self)@.pc,
                regs: spec_reg_write(old(self)@.regs, r, val),
                mem: old(self)@.mem,
            }),
    {
        if r != 31 {
            self.register.set(r as usize, val);
        }
    }

    /// Seeds one byte of memory; used by a loader to place a program image
    /// before the first reset. Fails with OutOfBounds past the end of the
    /// store, in which case nothing changes.
    pub fn memory_write(&mut self, addr: u32, val: u8) -> (r: Result<(), ExecutionError>)
        requires
            old(self).wf(),
        ensures
            final(self).wf(),
            (match r {
                Ok(_) => addr < old(self)@.mem.len() && final(self)@ == (MachineState {
                    halted: old(self)@.halted,
                    pc: old(self)@.pc,
                    regs: old(self)@.regs,
                    mem: old(self)@.mem.update(addr as int, val),
                }),
                Err(e) => addr >= old(self)@.mem.len() && e == ExecutionError::OutOfBounds
                    && final(self)@ == old(self)@,
            }),
    {
        self.mem.write(addr, val)
    }

    /// A snapshot of the 31 general registers, in index order.
    pub fn dump_registers(&self) -> (regs: Vec<u32>)
        requires
            self.wf(),
        ensures
            regs@ == self@.regs,
    {
        let mut out: Vec<u32> = Vec::new();
        let mut i: usize = 0;
        while i < 31
            invariant
                self.wf(),
                i <= 31,
                out@ == self@.regs.subrange(0, i as int),
            decreases 31 - i,
        {
            out.push(self.register[i]);
            proof {
                assert(out@ =~= self@.regs.subrange(0, i + 1));
            }
            i = i + 1;
        }
        proof {
            assert(out@ =~= self@.regs);
        }
        out
    }

    /// Executes one register-format ALU operation.
    fn exec_op(&mut self, w: u32, k: AluKind)
        requires
            old(self).wf(),
        ensures
            final(self).wf(),
            final(self)@ == spec_alu_reg(old(self)@, w, k),
    {
        let (r_c, r_a, r_b) = registers(w);
        let a = self.read_reg(r_a);
        let b = self.read_reg(r_b);
        let v = alu(k, a, b);
        self.write_reg(r_c, v);
        self.pc = self.pc.wrapping_add(4);
    }

    /// Executes one constant-format ALU operation.
    fn exec_op_lit(&mut self, w: u32, k: AluKind)
        requires
            old(self).wf(),
        ensures
            final(self).wf(),
            final(self)@ == spec_alu_const(old(self)@, w, k),
    {
        let (r_c, r_a, _r_b) = registers(w);
        let a = self.read_reg(r_a);
        let b = literal(w);
        let v = alu(k, a, b);
        self.write_reg(r_c, v);
        self.pc = self.pc.wrapping_add(4);
    }

    fn halt(&mut self)
        requires
            old(self).wf(),
        ensures
            final(self).wf(),
            final(self)@ == spec_halt(old(self)@),
    {
        self.halted = true;
    }

    fn add(&mut self, w: u32)
        requires
            old(self).wf(),
        ensures
            final(self).wf(),
            final(self)@ == spec_alu_reg(old(self)@, w, AluKind::Add),
    {
        self.exec_op(w, AluKind::Add)
    }

    fn addc(&mut self, w: u32)
        requires
            old(self).wf(),
        ensures
            final(self).wf(),
            final(self)@ == spec_alu_const(old(self)@, w, AluKind::Add),
    {
        self.exec_op_lit(w, AluKind::Add)
    }

    fn and(&mut self, w: u32)
        requires
            old(self).wf(),
        ensures
            final(self).wf(),
            final(self)@ == spec_alu_reg(old(self)@, w, AluKind::And),
    {
        self.exec_op(w, AluKind::And)
    }

    fn andc(&mut self, w: u32)
        requires
            old(self).wf(),
        ensures
            final(self).wf(),
            final(self)@ == spec_alu_const(old(self)@, w, AluKind::And),
    {
        self.exec_op_lit(w, AluKind::And)
    }

    fn beq(&mut self, w: u32)
        requires
            old(self).wf(),
        ensures
            final(self).wf(),
            final(self)@ == spec_branch(old(self)@, w, false),
    {
        let (r_c, r_a, _r_b) = registers(w);
        let a = self.read_reg(r_a);
        let pcn = self.pc.wrapping_add(4);
        self.write_reg(r_c, pcn);
        if a == 0 {
            self.pc = pcn.wrapping_add(literal(w).wrapping_mul(4));
        } else {
            self.pc = pcn;
        }
    }

    fn bne(&mut self, w: u32)
        requires
            old(self).wf(),
        ensures
            final(self).wf(),
            final(self)@ == spec_branch(old(self)@, w, true),
    {
        let (r_c, r_a, _r_b) = registers(w);
        let a = self.read_reg(r_a);
        let pcn = self.pc.wrapping_add(4);
        self.write_reg(r_c, pcn);
        if a != 0 {
            self.pc = pcn.wrapping_add(literal(w).wrapping_mul(4));
        } else {
            self.pc = pcn;
        }
    }

    fn cmpeq(&mut self, w: u32)
        requires
            old(self).wf(),
        ensures
            final(self).wf(),
            final(self)@ == spec_alu_reg(old(self)@, w, AluKind::CmpEq),
    {
        self.exec_op(w, AluKind::CmpEq)
    }

    fn cmpeqc(&mut self, w: u32)
        requires
            old(self).wf(),
        ensures
            final(self).wf(),
            final(self)@ == spec_alu_const(old(self)@, w, AluKind::CmpEq),
    {
        self.exec_op_lit(w, AluKind::CmpEq)
    }

    fn cmple(&mut self, w: u32)
        requires
            old(self).wf(),
        ensures
            final(self).wf(),
            final(self)@ == spec_alu_reg(old(self)@, w, AluKind::CmpLe),
    {
        self.exec_op(w, AluKind::CmpLe)
    }

    fn cmplec(&mut self, w: u32)
        requires
            old(self).wf(),
        ensures
            final(self).wf(),
            final(self)@ == spec_alu_const(old(self)@, w, AluKind::CmpLe),
    {
        self.exec_op_lit(w, AluKind::CmpLe)
    }

    fn cmplt(&mut self, w: u32)
        requires
            old(self).wf(),
        ensures
            final(self).wf(),
            final(self)@ == spec_alu_reg(old(self)@, w, AluKind::CmpLt),
    {
        self.exec_op(w, AluKind::CmpLt)
    }

    fn cmpltc(&mut self, w: u32)
        requires
            old(self).wf(),
        ensures
            final(self).wf(),
            final(self)@ == spec_alu_const(old(self)@, w, AluKind::CmpLt),
    {
        self.exec_op_lit(w, AluKind::CmpLt)
    }

    fn div(&mut self, w: u32) -> (r: Result<(), ExecutionError>)
        requires
            old(self).wf(),
        ensures
            final(self).wf(),
            (match spec_div(old(self)@, w, false) {
                Ok(s) => r == Ok::<(), ExecutionError>(()) && final(self)@ == s,
                Err(e) => r == Err::<(), ExecutionError>(e) && final(self)@ == old(self)@,
            }),
    {
        let (r_c, r_a, r_b) = registers(w);
        let a = self.read_reg(r_a);
        let b = self.read_reg(r_b);
        if b == 0 {
            return Err(ExecutionError::DivideByZero);
        }
        self.write_reg(r_c, a / b);
        self.pc = self.pc.wrapping_add(4);
        Ok(())
    }

    fn divc(&mut self, w: u32) -> (r: Result<(), ExecutionError>)
        requires
            old(self).wf(),
        ensures
            final(self).wf(),
            (match spec_div(old(self)@, w, true) {
                Ok(s) => r == Ok::<(), ExecutionError>(()) && final(self)@ == s,
                Err(e) => r == Err::<(), ExecutionError>(e) && final(self)@ == old(self)@,
            }),
    {
        let (r_c, r_a, _r_b) = registers(w);
        let a = self.read_reg(r_a);
        let b = literal(w);
        if b == 0 {
            return Err(ExecutionError::DivideByZero);
        }
        self.write_reg(r_c, a / b);
        self.pc = self.pc.wrapping_add(4);
        Ok(())
    }

    fn jmp(&mut self, w: u32)
        requires
            old(self).wf(),
        ensures
            final(self).wf(),
            final(self)@ == spec_jmp(old(self)@, w),
    {
        let (r_c, r_a, _r_b) = registers(w);
        let pcn = self.pc.wrapping_add(4);
        self.write_reg(r_c, pcn);
        let target = self.read_reg(r_a);
        self.pc = target & 0xFFFF_FFFC;
    }

    fn ld(&mut self, w: u32) -> (r: Result<(), ExecutionError>)
        requires
            old(self).wf(),
        ensures
            final(self).wf(),
            (match spec_ld(old(self)@, w) {
                Ok(s) => r == Ok::<(), ExecutionError>(()) && final(self)@ == s,
                Err(e) => r == Err::<(), ExecutionError>(e) && final(self)@ == old(self)@,
            }),
    {
        let (r_c, r_a, _r_b) = registers(w);
        let a = self.read_reg(r_a);
        let ea = a.wrapping_add(literal(w));
        let val = match self.mem.read_word(ea) {
            Ok(v) => v,
            Err(e) => {
                return Err(e);
            },
        };
        self.write_reg(r_c, val);
        self.pc = self.pc.wrapping_add(4);
        Ok(())
    }

    fn ldr(&mut self, w: u32) -> (r: Result<(), ExecutionError>)
        requires
            old(self).wf(),
        ensures
            final(self).wf(),
            (match spec_ldr(old(self)@, w) {
                Ok(s) => r == Ok::<(), ExecutionError>(()) && final(self)@ == s,
                Err(e) => r == Err::<(), ExecutionError>(e) && final(self)@ == old(self)@,
            }),
    {
        let (r_c, _r_a, _r_b) = registers(w);
        let ea = self.pc.wrapping_add(4).wrapping_add(literal(w).wrapping_mul(4));
        let val = match self.mem.read_word(ea) {
            Ok(v) => v,
            Err(e) => {
                return Err(e);
            },
        };
        self.write_reg(r_c, val);
        self.pc = self.pc.wrapping_add(4);
        Ok(())
    }

    fn mul(&mut self, w: u32)
        requires
            old(self).wf(),
        ensures
            final(self).wf(),
            final(self)@ == spec_alu_reg(old(self)@, w, AluKind::Mul),
    {
        self.exec_op(w, AluKind::Mul)
    }

    fn mulc(&mut self, w: u32)
        requires
            old(self).wf(),
        ensures
            final(self).wf(),
            final(self)@ == spec_alu_const(old(self)@, w, AluKind::Mul),
    {
        self.exec_op_lit(w, AluKind::Mul)
    }

    fn or(&mut self, w: u32)
        requires
            old(self).wf(),
        ensures
            final(self).wf(),
            final(self)@ == spec_alu_reg(old(self)@, w, AluKind::Or),
    {
        self.exec_op(w, AluKind::Or)
    }

    fn orc(&mut self, w: u32)
        requires
            old(self).wf(),
        ensures
            final(self).wf(),
            final(self)@ == spec_alu_const(old(self)@, w, AluKind::Or),
    {
        self.exec_op_lit(w, AluKind::Or)
    }

    fn shl(&mut self, w: u32)
        requires
            old(self).wf(),
        ensures
            final(self).wf(),
            final(self)@ == spec_alu_reg(old(self)@, w, AluKind::Shl),
    {
        self.exec_op(w, AluKind::Shl)
    }

    fn shlc(&mut self, w: u32)
        requires
            old(self).wf(),
        ensures
            final(self).wf(),
            final(self)@ == spec_alu_const(old(self)@, w, AluKind::Shl),
    {
        self.exec_op_lit(w, AluKind::Shl)
    }

    fn shr(&mut self, w: u32)
        requires
            old(self).wf(),
        ensures
            final(self).wf(),
            final(self)@ == spec_alu_reg(old(self)@, w, AluKind::Shr),
    {
        self.exec_op(w, AluKind::Shr)
    }

    fn shrc(&mut self, w: u32)
        requires
            old(self).wf(),
        ensures
            final(self).wf(),
            final(self)@ == spec_alu_const(old(self)@, w, AluKind::Shr),
    {
        self.exec_op_lit(w, AluKind::Shr)
    }

    fn sra(&mut self, w: u32)
        requires
            old(self).wf(),
        ensures
            final(self).wf(),
            final(self)@ == spec_alu_reg(old(self)@, w, AluKind::Sra),
    {
        self.exec_op(w, AluKind::Sra)
    }

    fn srac(&mut self, w: u32)
        requires
            old(self).wf(),
        ensures
            final(self).wf(),
            final(self)@ == spec_alu_const(old(self)@, w, AluKind::Sra),
    {
        self.exec_op_lit(w, AluKind::Sra)
    }

    fn sub(&mut self, w: u32)
        requires
            old(self).wf(),
        ensures
            final(self).wf(),
            final(self)@ == spec_alu_reg(old(self)@, w, AluKind::Sub),
    {
        self.exec_op(w, AluKind::Sub)
    }

    fn subc(&mut self, w: u32)
        requires
            old(self).wf(),
        ensures
            final(self).wf(),
            final(self)@ == spec_alu_const(old(self)@, w, AluKind::Sub),
    {
        self.exec_op_lit(w, AluKind::Sub)
    }

    fn st(&mut self, w: u32) -> (r: Result<(), ExecutionError>)
        requires
            old(self).wf(),
        ensures
            final(self).wf(),
            (match spec_st(old(self)@, w) {
                Ok(s) => r == Ok::<(), ExecutionError>(()) && final(self)@ == s,
                Err(e) => r == Err::<(), ExecutionError>(e) && final(self)@ == old(self)@,
            }),
    {
        let (r_c, r_a, _r_b) = registers(w);
        let a = self.read_reg(r_a);
        let c = self.read_reg(r_c);
        let ea = a.wrapping_add(literal(w));
        match self.mem.write_word(ea, c) {
            Ok(_) => {},
            Err(e) => {
                return Err(e);
            },
        }
        self.pc = self.pc.wrapping_add(4);
        Ok(())
    }

    fn xor(&mut self, w: u32)
        requires
            old(self).wf(),
        ensures
            final(self).wf(),
            final(self)@ == spec_alu_reg(old(self)@, w, AluKind::Xor),
    {
        self.exec_op(w, AluKind::Xor)
    }

    fn xorc(&mut self, w: u32)
        requires
            old(self).wf(),
        ensures
            final(self).wf(),
            final(self)@ == spec_alu_const(old(self)@, w, AluKind::Xor),
    {
        self.exec_op_lit(w, AluKind::Xor)
    }

    fn xnor(&mut self, w: u32)
        requires
            old(self).wf(),
        ensures
            final(self).wf(),
            final(self)@ == spec_alu_reg(old(self)@, w, AluKind::Xnor),
    {
        self.exec_op(w, AluKind::Xnor)
    }

    fn xnorc(&mut self, w: u32)
        requires
            old(self).wf(),
        ensures
            final(self).wf(),
            final(self)@ == spec_alu_const(old(self)@, w, AluKind::Xnor),
    {
        self.exec_op_lit(w, AluKind::Xnor)
    }

    /// One cycle of the machine, agreeing exactly with `spec_step`: a
    /// halted machine does nothing; otherwise the word at the program
    /// counter is fetched, decoded and dispatched. Every error is returned
    /// with the machine exactly as it was before the call.
    pub fn tick(&mut self) -> (r: Result<(), ExecutionError>)
        requires
            old(self).wf(),
        ensures
            final(self).wf(),
            (match spec_step(old(self)@) {
                Ok(s) => r == Ok::<(), ExecutionError>(()) && final(self)@ == s,
                Err(e) => r == Err::<(), ExecutionError>(e) && final(self)@ == old(self)@,
            }),
    {
        if self.halted {
            return Ok(());
        }
        let w = match self.mem.read_word(self.pc) {
            Ok(w) => w,
            Err(e) => {
                return Err(e);
            },
        };
        let op = opcode(w);
        match op {
            0x00 => {
                self.halt();
                Ok(())
            },
            0x20 => {
                self.add(w);
                Ok(())
            },
            0x30 => {
                self.addc(w);
                Ok(())
            },
            0x21 => {
                self.sub(w);
                Ok(())
            },
            0x31 => {
                self.subc(w);
                Ok(())
            },
            0x22 => {
                self.mul(w);
                Ok(())
            },
            0x32 => {
                self.mulc(w);
                Ok(())
            },
            0x23 => self.div(w),
            0x33 => self.divc(w),
            0x24 => {
                self.cmpeq(w);
                Ok(())
            },
            0x34 => {
                self.cmpeqc(w);
                Ok(())
            },
            0x25 => {
                self.cmplt(w);
                Ok(())
            },
            0x35 => {
                self.cmpltc(w);
                Ok(())
            },
            0x26 => {
                self.cmple(w);
                Ok(())
            },
            0x36 => {
                self.cmplec(w);
                Ok(())
            },
            0x28 => {
                self.and(w);
                Ok(())
            },
            0x38 => {
                self.andc(w);
                Ok(())
            },
            0x29 => {
                self.or(w);
                Ok(())
            },
            0x39 => {
                self.orc(w);
                Ok(())
            },
            0x2A => {
                self.xor(w);
                Ok(())
            },
            0x3A => {
                self.xorc(w);
                Ok(())
            },
            0x2B => {
                self.xnor(w);
                Ok(())
            },
            0x3B => {
                self.xnorc(w);
                Ok(())
            },
            0x2C => {
                self.shl(w);
                Ok(())
            },
            0x3C => {
                self.shlc(w);
                Ok(())
            },
            0x2D => {
                self.shr(w);
                Ok(())
            },
            0x3D => {
                self.shrc(w);
                Ok(())
            },
            0x2E => {
                self.sra(w);
                Ok(())
            },
            0x3E => {
                self.srac(w);
                Ok(())
            },
            0x1B => {
                self.jmp(w);
                Ok(())
            },
            0x1C => {
                self.beq(w);
                Ok(())
            },
            0x1D => {
                self.bne(w);
                Ok(())
            },
            0x18 => self.ld(w),
            0x1F => self.ldr(w),
            0x19 => self.st(w),
            _ => Err(ExecutionError::IllegalOpcode),
        }
    }
}

} // verus!
