//! The array-of-slots architecture: the record holds the thirteen
//! callee-saved general-purpose registers, the frame pointer, the link
//! register and the stack pointer, as fixed word slots.
//!
//! The initializer stashes the entry function pointer and up to two
//! caller-supplied words directly into designated slots, aims the saved
//! frame and stack pointers four words below the stack top (zero-filled
//! unwind-sentinel space), and sets the saved link register to the
//! bootstrap routine, which moves the stashed values into the
//! calling-convention registers before falling into the entry function.
//! The switch routine of this architecture swaps the whole slot array with
//! the live register file.

use vstd::prelude::*;

use crate::detail::align_down;
use crate::machine::{Machine, RA_BOOTSTRAP};
use crate::stack::Stack;

verus! {

/// Slot of the first stashed word, moved into the first argument register
/// by the bootstrap routine.
pub const X19: usize = 0;

/// Slot of the second stashed word, moved into the second argument register
/// by the bootstrap routine.
pub const X20: usize = 1;

/// Slot of the stashed entry function pointer.
pub const X21: usize = 2;

/// Slot of the saved frame pointer.
pub const FP: usize = 10;

/// Slot of the saved link register: the address a switch into this record
/// resumes at.
pub const LR: usize = 11;

/// Slot of the saved stack pointer.
pub const SP: usize = 12;

/// Number of register slots in the record.
pub const SLOTS: usize = 16;

/// The callee-saved state of this architecture: a fixed array of machine
/// word slots.
#[derive(Clone, Copy, Debug)]
pub struct Registers {
    gpr: [usize; 16],
}

impl View for Registers {
    type V = Seq<usize>;

    closed spec fn view(&self) -> Seq<usize> {
        self.gpr@
    }
}

impl Registers {
    /// A zeroed record: an uninitialized context.
    pub fn new() -> (r: Registers)
        ensures
            r@.len() == 16,
            forall|i: int| 0 <= i < 16 ==> r@[i] == 0,
    {
        Registers { gpr: [0, 0, 0, 0, 0, 0, 0, 0, 0, 0, 0, 0, 0, 0, 0, 0] }
    }

    /// The word held in a slot.
    pub fn slot(&self, i: usize) -> (w: usize)
        requires
            i < 16,
        ensures
            w == self@[i as int],
    {
        self.gpr[i]
    }

    /// Cache hint for the record and the first saved frame.  The hint has no
    /// architectural effect; the native layer issues prefetch instructions.
    pub fn prefetch(&self) {
    }
}

/// The live callee-saved register file of the processor, as the switch
/// routine of this architecture sees it.
#[derive(Clone, Copy, Debug)]
pub struct Cpu {
    gpr: [usize; 16],
}

impl View for Cpu {
    type V = Seq<usize>;

    closed spec fn view(&self) -> Seq<usize> {
        self.gpr@
    }
}

impl Cpu {
    /// A zeroed register file.
    pub fn new() -> (c: Cpu)
        ensures
            c@.len() == 16,
            forall|i: int| 0 <= i < 16 ==> c@[i] == 0,
    {
        Cpu { gpr: [0, 0, 0, 0, 0, 0, 0, 0, 0, 0, 0, 0, 0, 0, 0, 0] }
    }

    /// The word held in a register.
    pub fn slot(&self, i: usize) -> (w: usize)
        requires
            i < 16,
        ensures
            w == self@[i as int],
    {
        self.gpr[i]
    }

    /// Overwrite one register.
    pub fn set_slot(&mut self, i: usize, w: usize)
        requires
            i < 16,
        ensures
            final(self)@ == old(self)@.update(i as int, w),
    {
        self.gpr[i] = w;
    }
}

/// The effect of the native switch routine of this architecture on the
/// register state: the live file is saved into one record and reloaded from
/// another.  Result: the new live file and the saved record.
pub open spec fn swap_registers_spec(cpu: Seq<usize>, incoming: Seq<usize>) -> (
    Seq<usize>,
    Seq<usize>,
) {
    (incoming, cpu)
}

/// The data effect of the native switch routine: save every slot of the
/// live register file into `out_regs` and load every slot of `in_regs` into
/// the live file.  Each slot is carried bit for bit.
pub fn swap_registers(cpu: &mut Cpu, out_regs: &mut Registers, in_regs: &Registers)
    requires
        in_regs@.len() == 16,
    ensures
        final(cpu)@ == swap_registers_spec(old(cpu)@, in_regs@).0,
        final(out_regs)@ == swap_registers_spec(old(cpu)@, in_regs@).1,
        final(out_regs)@ == old(cpu)@,
        final(cpu)@ == in_regs@,
{
    out_regs.gpr = cpu.gpr;
    cpu.gpr = in_regs.gpr;
}

/// Fill a register record and the top of a fresh stack so that the first
/// switch into the record bootstraps into `fptr` with the two stashed words
/// as arguments.  The four words below the aligned stack top are zeroed as
/// unwind-sentinel space, and the saved frame and stack pointers are aimed
/// just below it.
pub fn initialize_call_frame(
    regs: &mut Registers,
    fptr: usize,
    arg: usize,
    arg2: usize,
    stack: &Stack,
    m: &mut Machine,
)
    requires
        stack.in_arena(old(m)@.mem),
        stack.words() >= 6,
    ensures
        final(regs)@.len() == 16,
        final(regs)@[X19 as int] == arg,
        final(regs)@[X20 as int] == arg2,
        final(regs)@[X21 as int] == fptr,
        final(regs)@[FP as int] == crate::detail::spec_align_down(stack.end) - 4,
        final(regs)@[LR as int] == RA_BOOTSTRAP,
        final(regs)@[SP as int] == crate::detail::spec_align_down(stack.end) - 4,
        forall|i: int|
            0 <= i < 16 && i != X19 && i != X20 && i != X21 && i != FP && i != LR && i != SP
                ==> final(regs)@[i] == old(regs)@[i],
        final(m)@.mem.len() == old(m)@.mem.len(),
        forall|i: int|
            crate::detail::spec_align_down(stack.end) - 4 <= i
                < crate::detail::spec_align_down(stack.end) ==> final(m)@.mem[i] == 0,
        forall|i: int|
            0 <= i < old(m)@.mem.len() && !(crate::detail::spec_align_down(stack.end) - 4 <= i
                < crate::detail::spec_align_down(stack.end))
                ==> final(m)@.mem[i] == old(m)@.mem[i],
        final(m)@.sp == old(m)@.sp,
        final(m)@.rbp == old(m)@.rbp,
{
    let sp: usize = align_down(stack.end());

    // These slots are frobbed by the bootstrap routine into the right
    // registers so that it can invoke the real entry function.
    regs.gpr[X19] = arg;
    regs.gpr[X20] = arg2;
    regs.gpr[X21] = fptr;

    // Current frame pointer of the fresh context.
    regs.gpr[FP] = sp - 4;

    regs.gpr[LR] = RA_BOOTSTRAP;

    // The initial stack pointer, leaving enough space above it for unwind
    // access.
    regs.gpr[SP] = sp - 4;

    // Zero the reserved unwind-sentinel words at the stack top.
    m.write(sp - 1, 0);
    m.write(sp - 2, 0);
    m.write(sp - 3, 0);
    m.write(sp - 4, 0);
}

} // verus!
