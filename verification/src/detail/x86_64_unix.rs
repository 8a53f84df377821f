//! The stack-pointer-only architecture: callee-saved state lives in the
//! stack frames themselves, so the register record holds nothing but the
//! saved stack pointer.
//!
//! The initializer builds two nested synthetic call frames on a fresh stack,
//! so that to a frame walker the upcoming first resumption looks like an
//! ordinary nested call: the outer frame belongs to the first-stage
//! trampoline (never executed, present only so the walker resolves a named
//! location), the inner frame to the switch itself, returning into the
//! second-stage trampoline, which invokes the entry function.  The outer
//! frame's link slot is left holding a recognizable placeholder; every
//! linked switch into the context overwrites it with the parent's parked
//! frame address.

use vstd::prelude::*;

use crate::machine::{Machine, CFA_SENTINEL, RA_STAGE1, RA_STAGE2};
use crate::stack::{Stack, StackPointer};

verus! {

/// Number of words below the stack's high end that an initialized context's
/// saved stack pointer stands at.
pub const FRAME_WORDS: usize = 6;

/// The two synthetic frames an initialized stack holds, word by word, below
/// its high end `end`:
///
/// * `end - 1`: padding keeping the frame aligned;
/// * `end - 2`: the entry function pointer the trampoline will call;
/// * `end - 3`: return address into the first-stage trampoline, past its
///   padding instructions;
/// * `end - 4`: the link slot, holding the placeholder until the first
///   linked switch records the parent's parked frame address there;
/// * `end - 5`: return address into the second-stage trampoline;
/// * `end - 6`: saved frame pointer, the address of the link slot.
pub open spec fn frame_initialized(mem: Seq<usize>, end: usize, fptr: usize) -> bool {
    6 <= end <= mem.len() && mem[end - 1] == 0 && mem[end - 2] == fptr && mem[end - 3]
        == RA_STAGE1 && mem[end - 4] == CFA_SENTINEL && mem[end - 5] == RA_STAGE2 && mem[end - 6]
        == end - 4
}

/// The callee-saved state of this architecture: only the stack pointer is
/// held in the record; everything else a switch must preserve lives in the
/// frames it pushes.
#[derive(Clone, Copy, PartialEq, Eq, Structural, Debug)]
pub struct Registers {
    sp: usize,
}

impl Registers {
    /// The saved stack pointer: a word address, or the null sentinel `0` for
    /// a context that is uninitialized or finished.
    pub closed spec fn saved_sp(&self) -> usize {
        self.sp
    }

    /// A zeroed record: an uninitialized context.
    pub fn new() -> (r: Registers)
        ensures
            r.saved_sp() == 0,
    {
        Registers { sp: 0 }
    }

    /// The record of the already-running native thread: nothing to install,
    /// its stack pointer is filled in at its first switch out.
    pub fn root() -> (r: Registers)
        ensures
            r.saved_sp() == 0,
    {
        Self::new()
    }

    /// The saved stack pointer.
    pub fn get_sp(&self) -> (sp: StackPointer)
        ensures
            sp.addr == self.saved_sp(),
    {
        StackPointer::new(self.sp)
    }

    /// Overwrite the saved stack pointer.
    pub fn set_sp(&mut self, sp: StackPointer)
        ensures
            final(self).saved_sp() == sp.addr,
    {
        self.sp = sp.addr;
    }

    /// Cache hint for the saved frame, skipped when the stack pointer is the
    /// null sentinel.  The hint itself has no architectural effect; the
    /// native layer issues it as a prefetch instruction.
    pub fn prefetch(&self)
        ensures
            true,
    {
        if self.sp == 0 {
            return ;
        }
    }

    /// Restore host-level per-thread state beyond CPU registers.  Nothing
    /// extra is required on this target: a no-op hook.
    pub fn restore_context(&mut self)
        ensures
            *final(self) == *old(self),
    {
    }

    /// Install the initial frame for `fptr` on `stack`, per
    /// [`initialize_call_frame`].
    pub fn init_with(&mut self, fptr: usize, stack: &Stack, m: &mut Machine)
        requires
            stack.in_arena(old(m)@.mem),
            stack.words() >= 6,
        ensures
            frame_initialized(final(m)@.mem, stack.end, fptr),
            final(self).saved_sp() == stack.end - 6,
            final(m)@.mem.len() == old(m)@.mem.len(),
            forall|i: int|
                0 <= i < old(m)@.mem.len() && !(stack.end - 6 <= i < stack.end)
                    ==> final(m)@.mem[i] == old(m)@.mem[i],
            final(m)@.sp == old(m)@.sp,
            final(m)@.rbp == old(m)@.rbp,
    {
        initialize_call_frame(self, fptr, stack, m);
    }
}

/// Write onto a fresh stack the exact layout the switch primitive expects:
/// two nested synthetic call frames making the upcoming first resumption
/// behave as if this context had itself been suspended mid-call inside the
/// switch routine.  Pure data setup: a malformed input (undersized stack) is
/// excluded by contract, not detected at run time.
pub fn initialize_call_frame(regs: &mut Registers, fptr: usize, stack: &Stack, m: &mut Machine)
    requires
        stack.in_arena(old(m)@.mem),
        stack.words() >= 6,
    ensures
        frame_initialized(final(m)@.mem, stack.end, fptr),
        final(regs).saved_sp() == stack.end - 6,
        final(m)@.mem.len() == old(m)@.mem.len(),
        forall|i: int|
            0 <= i < old(m)@.mem.len() && !(stack.end - 6 <= i < stack.end) ==> final(m)@.mem[i]
                == old(m)@.mem[i],
        final(m)@.sp == old(m)@.sp,
        final(m)@.rbp == old(m)@.rbp,
{
    let mut sp: usize = stack.end();
    // Padding to keep the frame aligned.
    sp = m.push(sp, 0);
    // Function that the second-stage trampoline should call.
    sp = m.push(sp, fptr);
    // Call frame for the second-stage trampoline.  The link slot below it is
    // rewritten by every linked switch into this context.
    sp = m.push(sp, RA_STAGE1);
    sp = m.push(sp, CFA_SENTINEL);
    // Call frame for the switch itself, its saved frame pointer aimed at the
    // link slot.
    let frame: usize = sp;
    sp = m.push(sp, RA_STAGE2);
    sp = m.push(sp, frame);
    regs.sp = sp;
}

} // verus!
