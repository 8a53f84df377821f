//! The portable safe wrapper: one saved execution state per logical thread.
//!
//! A [`RegContext`] owns exactly one register record.  It is created once
//! per logical thread (`root` for the already-running native thread, `empty`
//! plus `init_with` for a fresh one), mutated in place on every switch, and
//! destroyed with no register-level teardown — releasing the stack is its
//! owner's concern.
//!
//! A switch is a synchronous, explicit transfer on the machine model: the
//! running side parks and the target's frame is loaded.  The [`Event`] a
//! switch returns is what the side now running observes.  When a later
//! switch resumes the suspended caller, [`RegContext::swap_return`] performs
//! the bookkeeping the suspended call does as it returns: it records the
//! peer's parked stack pointer — the null sentinel if the peer finished —
//! and hands back the delivered word.

use vstd::prelude::*;

use crate::detail::x86_64_unix::{frame_initialized, initialize_call_frame, Registers};
use crate::machine::{
    can_switch, can_switch_link, switch_link_spec, switch_spec, Event, Machine,
};
use crate::stack::{Stack, StackPointer};

verus! {

/// One logical thread's saved execution state: the registers that must
/// survive while the thread is suspended, chiefly the stack pointer.
#[derive(Clone, Copy, PartialEq, Eq, Structural, Debug)]
pub struct RegContext {
    regs: Registers,
}

impl RegContext {
    /// The saved stack pointer: a word address, or the null sentinel `0`
    /// for a context that is uninitialized or finished.
    pub closed spec fn saved_sp(&self) -> usize {
        self.regs.saved_sp()
    }

    /// The context of the already-running native thread.  No frame to
    /// install: its stack pointer is recorded when it first switches out.
    pub fn root() -> (c: RegContext)
        ensures
            c.saved_sp() == 0,
    {
        RegContext { regs: Registers::root() }
    }

    /// An uninitialized context for a fresh logical thread.
    pub fn empty() -> (c: RegContext)
        ensures
            c.saved_sp() == 0,
    {
        RegContext { regs: Registers::new() }
    }

    /// Overwrite the saved stack pointer.
    pub fn set_sp(&mut self, sp: StackPointer)
        ensures
            final(self).saved_sp() == sp.addr,
    {
        self.regs.set_sp(sp)
    }

    /// The saved stack pointer.
    pub fn get_sp(&self) -> (sp: StackPointer)
        ensures
            sp.addr == self.saved_sp(),
    {
        self.regs.get_sp()
    }

    /// Cache hint for the saved frame, skipped when the stack pointer is
    /// the null sentinel.
    pub fn prefetch(&self) {
        self.regs.prefetch();
    }

    /// Install the initial synthetic frame for entry function `fptr` on
    /// `stack`: after this, the context's saved stack pointer aims at the
    /// fabricated switch frame, and the first switch into it enters `fptr`.
    pub fn init_with(&mut self, fptr: usize, stack: &Stack, m: &mut Machine)
        requires
            stack.in_arena(old(m)@.mem),
            stack.words() >= 6,
        ensures
            frame_initialized(final(m)@.mem, stack.end, fptr),
            final(self).saved_sp() == stack.end - 6,
            final(m)@.mem.len() == old(m)@.mem.len(),
            forall|i: int|
                0 <= i < old(m)@.mem.len() && !(stack.end - 6 <= i < stack.end)
                    ==> final(m)@.mem[i] == old(m)@.mem[i],
            final(m)@.sp == old(m)@.sp,
            final(m)@.rbp == old(m)@.rbp,
    {
        initialize_call_frame(&mut self.regs, fptr, stack, m);
    }

    /// Restore host-level per-thread state beyond CPU registers.  Nothing
    /// extra is required on this target: a no-op hook.
    pub fn restore_context(regs: &mut RegContext)
        ensures
            *final(regs) == *old(regs),
    {
        regs.regs.restore_context();
    }

    /// Suspend the running side and resume the context saved in `dst`: the
    /// unlinked switch.  The returned event is what the side now running
    /// observes — the argument delivered bit for bit and the caller's
    /// parked frame address.  The caller is frozen at this call; the event
    /// that eventually resumes it is handed to [`RegContext::swap_return`].
    pub fn swap(dst: &mut RegContext, arg: usize, m: &mut Machine) -> (ev: Event)
        requires
            can_switch(old(m)@, old(dst).saved_sp()),
        ensures
            final(m)@ == switch_spec(old(m)@, arg, old(dst).saved_sp()).0,
            ev == switch_spec(old(m)@, arg, old(dst).saved_sp()).1,
            *final(dst) == *old(dst),
    {
        Self::restore_context(dst);
        let sp = dst.regs.get_sp();
        m.switch(arg, sp)
    }

    /// As [`RegContext::swap`], but first records the running side's parked
    /// frame address in the link slot of the target stack, whose high end
    /// the caller supplies in `base`: the linked switch, used for the first
    /// switch into a fresh context and for any re-entry whose frame chain
    /// must remain walkable from the target.
    pub fn swap_link(dst: &mut RegContext, base: usize, arg: usize, m: &mut Machine) -> (ev: Event)
        requires
            can_switch_link(old(m)@, old(dst).saved_sp(), base),
        ensures
            final(m)@ == switch_link_spec(old(m)@, arg, old(dst).saved_sp(), base).0,
            ev == switch_link_spec(old(m)@, arg, old(dst).saved_sp(), base).1,
            *final(dst) == *old(dst),
    {
        Self::restore_context(dst);
        let sp = dst.regs.get_sp();
        m.switch_link(arg, sp, base)
    }

    /// The bookkeeping a suspended switch call performs as it returns,
    /// given the event that resumed its side: record the peer's parked
    /// stack pointer in `dst` — the null sentinel if the peer finished, the
    /// one legitimate "do not resume again" signal — and hand back the
    /// delivered word.
    pub fn swap_return(dst: &mut RegContext, ev: &Event) -> (ret: usize)
        ensures
            final(dst).saved_sp() == ev.peer_of(),
            ret == ev.arg_of(),
    {
        match *ev {
            Event::Entered { arg, peer, .. } => {
                dst.set_sp(peer);
                arg
            },
            Event::Resumed { arg, peer } => {
                dst.set_sp(peer);
                arg
            },
        }
    }
}

} // verus!
