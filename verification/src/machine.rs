//! The word-level model of one native thread and its switch primitives.
//!
//! A [`Machine`] owns a word-addressed arena holding every stack region, the
//! running side's stack pointer and frame pointer, and nothing else: exactly
//! the state a context switch reads and writes.  The two switch primitives
//! (`swap` and `swap_link` of the native layer) and the trampoline epilogue
//! are modeled as transitions on that state; each transition is stated as a
//! pure specification function and implemented by a verified method.
//!
//! Control transfer itself is synchronous and explicit: a switch parks the
//! running side on its own stack and loads the target frame.  What the side
//! that gains control observes — the argument word, bit for bit, and the
//! address the previous side is now parked at — is returned as an [`Event`].
//! The caller of a switch is frozen at the switch statement; the event that
//! eventually resumes it carries the value its own switch call returns.

use vstd::prelude::*;

use crate::stack::{Stack, StackPointer};

verus! {

/// Model address of the instruction a parked context resumes at: the point
/// just past the switch's final jump.  Every frame a switch pushes carries
/// this return address.
pub const RA_RESUME: usize = 1;

/// Model entry address of the second-stage trampoline: the return address a
/// freshly initialized frame carries, so that the first switch into the
/// context falls into the trampoline, which invokes the entry function.
pub const RA_STAGE2: usize = 2;

/// Model address just past the padding instructions of the first-stage
/// trampoline.  It is stored in the initial frame purely so that a frame
/// walker resolves a named location; it is never executed.
pub const RA_STAGE1: usize = 3;

/// Model address of the bootstrap routine of the array-of-slots
/// architecture: it moves the stashed entry pointer and arguments into the
/// calling-convention registers and falls into the entry function.
pub const RA_BOOTSTRAP: usize = 4;

/// Placeholder stored in the link slot of a fresh frame, recognizable in a
/// stack dump.  The first linked switch into the context overwrites it with
/// the parent's parked frame address.
pub const CFA_SENTINEL: usize = 0xdead0cfa;

/// What the side that gains control from a switch observes.
#[derive(Clone, Copy, PartialEq, Eq, Structural, Debug)]
pub enum Event {
    /// A freshly initialized context was entered: its entry function is
    /// invoked exactly once with the argument word and the peer's parked
    /// stack pointer.
    Entered { fptr: usize, arg: usize, peer: StackPointer },
    /// A suspended context was resumed: its pending switch call returns the
    /// argument word and the peer's parked stack pointer.  A null peer means
    /// the peer finished and must not be resumed again.
    Resumed { arg: usize, peer: StackPointer },
}

impl Event {
    /// The machine word the switch delivered.
    pub open spec fn arg_of(self) -> usize {
        match self {
            Event::Entered { arg, .. } => arg,
            Event::Resumed { arg, .. } => arg,
        }
    }

    /// The address the previously running side is parked at (`0` when it
    /// finished instead of parking).
    pub open spec fn peer_of(self) -> usize {
        match self {
            Event::Entered { peer, .. } => peer.addr,
            Event::Resumed { peer, .. } => peer.addr,
        }
    }
}

/// The machine-visible state of the model: the arena contents, the running
/// side's stack pointer, and its frame pointer.
#[verifier::ext_equal]
pub ghost struct State {
    pub mem: Seq<usize>,
    pub sp: usize,
    pub rbp: usize,
}

/// The state is meaningful: the arena is addressable and the running side's
/// stack pointer lies within it.
pub open spec fn wf_state(s: State) -> bool {
    s.mem.len() <= usize::MAX && s.sp <= s.mem.len()
}

/// The running side has room to park itself: a switch pushes its resume
/// address and frame pointer below its stack pointer, and must not touch the
/// reserved null address.
pub open spec fn can_park(s: State) -> bool {
    2 < s.sp && s.sp <= s.mem.len()
}

/// The frame address the running side is parked at once it has pushed.
pub open spec fn park_of(s: State) -> usize {
    (s.sp - 2) as usize
}

/// Arena contents after the running side parks: resume address on top of
/// the saved frame pointer, at the two words below its stack pointer.
pub open spec fn parked_mem(s: State) -> Seq<usize> {
    s.mem.update(s.sp - 1, RA_RESUME).update(s.sp - 2, s.rbp)
}

/// Arena contents after a linked park: as [`parked_mem`], and the parked
/// frame address written into the link slot, four words below the target
/// stack's high end.
pub open spec fn linked_mem(s: State, base: usize) -> Seq<usize> {
    parked_mem(s).update(base - 4, park_of(s))
}

/// In arena contents `mem`, `target` is a frame a switch can load: two
/// addressable words whose return address is either a parked switch or the
/// second-stage trampoline of a fresh frame (with its entry-pointer slot
/// addressable in turn).
pub open spec fn valid_target(mem: Seq<usize>, target: usize) -> bool {
    1 <= target && target + 2 <= mem.len() && (mem[target + 1] == RA_RESUME || (mem[target + 1]
        == RA_STAGE2 && target + 4 < mem.len()))
}

/// An unlinked switch to `target` is possible.
pub open spec fn can_switch(s: State, target: usize) -> bool {
    wf_state(s) && can_park(s) && valid_target(parked_mem(s), target)
}

/// A linked switch to `target` with link base `base` is possible.  The link
/// slot sits four words below `base` and must be addressable.
pub open spec fn can_switch_link(s: State, target: usize, base: usize) -> bool {
    wf_state(s) && can_park(s) && 5 <= base && base <= s.mem.len() && valid_target(
        linked_mem(s, base),
        target,
    )
}

/// Loading the frame at `target` from arena contents `mem`: the new running
/// side takes the saved frame pointer and resumes past it.  The event tells
/// whether a fresh context was entered or a parked one resumed, and carries
/// the argument and the parked peer address.
pub open spec fn load_frame(mem: Seq<usize>, arg: usize, target: usize, parked: usize) -> (
    State,
    Event,
) {
    let s2 = State { mem, sp: (target + 2) as usize, rbp: mem[target as int] };
    let ev = if mem[target + 1] == RA_STAGE2 {
        Event::Entered { fptr: mem[target + 4], arg, peer: StackPointer { addr: parked } }
    } else {
        Event::Resumed { arg, peer: StackPointer { addr: parked } }
    };
    (s2, ev)
}

/// One unlinked switch: park the running side, load the target frame,
/// deliver the argument.
pub open spec fn switch_spec(s: State, arg: usize, target: usize) -> (State, Event) {
    load_frame(parked_mem(s), arg, target, park_of(s))
}

/// One linked switch: as [`switch_spec`], and the parked frame address is
/// recorded in the target stack's link slot, splicing the two frame chains
/// together for a frame walker.
pub open spec fn switch_link_spec(s: State, arg: usize, target: usize, base: usize) -> (
    State,
    Event,
) {
    load_frame(linked_mem(s, base), arg, target, park_of(s))
}

/// The finishing jump can return to `parent`: an addressable parked frame.
pub open spec fn can_finish(s: State, parent: usize) -> bool {
    wf_state(s) && 1 <= parent && parent + 2 <= s.mem.len() && s.mem[parent + 1] == RA_RESUME
}

/// The trampoline epilogue once the entry function has returned: the
/// finished context does not park — its stack pointer is reported as the
/// null sentinel — and control jumps straight back into the parent's parked
/// frame, delivering `ret`.
pub open spec fn finish_spec(s: State, ret: usize, parent: usize) -> (State, Event) {
    let s2 = State { mem: s.mem, sp: (parent + 2) as usize, rbp: s.mem[parent as int] };
    let ev = Event::Resumed { arg: ret, peer: StackPointer { addr: 0 } };
    (s2, ev)
}

/// The parked parent frame addresses read off a frame chain: from frame
/// pointer `fp`, the link slot holds the first parent's parked frame, which
/// in turn holds the frame pointer the parent was running with, and so on,
/// one parent per step.
pub open spec fn chain_from(mem: Seq<usize>, fp: usize, n: nat) -> Seq<usize>
    decreases n,
{
    if n == 0 {
        Seq::empty()
    } else {
        seq![mem[fp as int]].add(chain_from(mem, mem[mem[fp as int] as int], (n - 1) as nat))
    }
}

/// Every address a chain walk of `n` steps from `fp` reads is inside the
/// arena.
pub open spec fn chain_in_bounds(mem: Seq<usize>, fp: usize, n: nat) -> bool
    decreases n,
{
    n == 0 || (fp < mem.len() && mem[fp as int] < mem.len() && chain_in_bounds(
        mem,
        mem[mem[fp as int] as int],
        (n - 1) as nat,
    ))
}

/// One native thread of the model: the arena holding every stack region and
/// the running side's stack and frame pointers.
pub struct Machine {
    mem: Vec<usize>,
    sp: usize,
    rbp: usize,
}

impl View for Machine {
    type V = State;

    closed spec fn view(&self) -> State {
        State { mem: self.mem@, sp: self.sp, rbp: self.rbp }
    }
}

impl Machine {
    /// A fresh native thread: a zeroed arena whose first `root_words` words
    /// above the reserved null address form the root context's stack.  The
    /// root context is running, parked frames will grow down from the arena
    /// top, and its frame pointer is the root marker `0`, where a frame walk
    /// ends.
    pub fn new(root_words: usize) -> (m: Machine)
        requires
            root_words < usize::MAX,
        ensures
            m@.mem.len() == root_words + 1,
            forall|i: int| 0 <= i < m@.mem.len() ==> m@.mem[i] == 0,
            m@.sp == root_words + 1,
            m@.rbp == 0,
    {
        let total: usize = root_words + 1;
        let mut mem: Vec<usize> = Vec::new();
        let mut i: usize = 0;
        while i < total
            invariant
                i <= total,
                mem@.len() == i,
                forall|j: int| 0 <= j < i ==> mem@[j] == 0,
            decreases total - i,
        {
            mem.push(0);
            i = i + 1;
        }
        Machine { mem, sp: total, rbp: 0 }
    }

    /// Carve a fresh zeroed stack region of `words` words at the top of the
    /// arena.  Regions are carved in creation order and never overlap.
    pub fn alloc_stack(&mut self, words: usize) -> (stk: Stack)
        requires
            old(self)@.mem.len() + words <= usize::MAX,
        ensures
            stk.begin == old(self)@.mem.len(),
            stk.end == stk.begin + words,
            final(self)@.mem.len() == old(self)@.mem.len() + words,
            forall|i: int|
                0 <= i < old(self)@.mem.len() ==> final(self)@.mem[i] == old(self)@.mem[i],
            forall|i: int|
                old(self)@.mem.len() <= i < final(self)@.mem.len() ==> final(self)@.mem[i] == 0,
            final(self)@.sp == old(self)@.sp,
            final(self)@.rbp == old(self)@.rbp,
    {
        let begin: usize = self.mem.len();
        let end: usize = begin + words;
        let mut i: usize = 0;
        while i < words
            invariant
                i <= words,
                self.mem@.len() == begin + i,
                begin + words <= usize::MAX,
                forall|j: int| 0 <= j < begin ==> self.mem@[j] == old(self).mem@[j],
                forall|j: int| begin <= j < begin + i ==> self.mem@[j] == 0,
                self.sp == old(self).sp,
                self.rbp == old(self).rbp,
            decreases words - i,
        {
            self.mem.push(0);
            i = i + 1;
        }
        Stack { begin, end }
    }

    /// Read the word at an arena address.
    pub fn read(&self, addr: usize) -> (w: usize)
        requires
            addr < self@.mem.len(),
        ensures
            w == self@.mem[addr as int],
    {
        self.mem[addr]
    }

    /// Write the word at an arena address.  The reserved null address is
    /// never written.
    pub fn write(&mut self, addr: usize, w: usize)
        requires
            1 <= addr < old(self)@.mem.len(),
        ensures
            final(self)@.mem == old(self)@.mem.update(addr as int, w),
            final(self)@.sp == old(self)@.sp,
            final(self)@.rbp == old(self)@.rbp,
    {
        self.mem[addr] = w;
    }

    /// Push one word: decrement the given stack pointer and store the word
    /// there, as a frame builder does.
    pub fn push(&mut self, sp: usize, w: usize) -> (nsp: usize)
        requires
            2 <= sp,
            sp <= old(self)@.mem.len(),
        ensures
            nsp == sp - 1,
            final(self)@.mem == old(self)@.mem.update(sp - 1, w),
            final(self)@.sp == old(self)@.sp,
            final(self)@.rbp == old(self)@.rbp,
    {
        let nsp: usize = sp - 1;
        self.mem[nsp] = w;
        nsp
    }

    /// The arena length, one past the highest address.
    pub fn len(&self) -> (n: usize)
        ensures
            n == self@.mem.len(),
    {
        self.mem.len()
    }

    /// The running side's stack pointer.
    pub fn current_sp(&self) -> (sp: usize)
        ensures
            sp == self@.sp,
    {
        self.sp
    }

    /// The running side's frame pointer.
    pub fn current_rbp(&self) -> (fp: usize)
        ensures
            fp == self@.rbp,
    {
        self.rbp
    }

    /// The data effect of the unlinked switch primitive: park the running
    /// side (resume address and frame pointer pushed on its own stack), load
    /// the frame at `target`, and deliver `arg` to the side that gains
    /// control.  The argument word is delivered bit for bit.
    pub fn switch(&mut self, arg: usize, target: StackPointer) -> (ev: Event)
        requires
            can_switch(old(self)@, target.addr),
        ensures
            final(self)@ == switch_spec(old(self)@, arg, target.addr).0,
            ev == switch_spec(old(self)@, arg, target.addr).1,
    {
        let sp0 = self.sp;
        self.mem[sp0 - 1] = RA_RESUME;
        self.mem[sp0 - 2] = self.rbp;
        let parked = sp0 - 2;
        self.load(arg, target.addr, parked)
    }

    /// The data effect of the linked switch primitive: as [`Machine::switch`],
    /// and the parked frame address is first written into the link slot four
    /// words below `base`, the target stack's high end, so that a frame walk
    /// out of the target continues into the parked parent frame.
    pub fn switch_link(&mut self, arg: usize, target: StackPointer, base: usize) -> (ev: Event)
        requires
            can_switch_link(old(self)@, target.addr, base),
        ensures
            final(self)@ == switch_link_spec(old(self)@, arg, target.addr, base).0,
            ev == switch_link_spec(old(self)@, arg, target.addr, base).1,
    {
        let sp0 = self.sp;
        self.mem[sp0 - 1] = RA_RESUME;
        self.mem[sp0 - 2] = self.rbp;
        let parked = sp0 - 2;
        self.mem[base - 4] = parked;
        self.load(arg, target.addr, parked)
    }

    /// The data effect of the trampoline epilogue run when a context's entry
    /// function returns: jump back into the parent frame parked at `parent`,
    /// delivering `ret` and the null sentinel in place of a parked address —
    /// the finished context must not be resumed again.
    pub fn finish(&mut self, ret: usize, parent: StackPointer) -> (ev: Event)
        requires
            can_finish(old(self)@, parent.addr),
        ensures
            final(self)@ == finish_spec(old(self)@, ret, parent.addr).0,
            ev == finish_spec(old(self)@, ret, parent.addr).1,
    {
        self.rbp = self.mem[parent.addr];
        self.sp = parent.addr + 2;
        Event::Resumed { arg: ret, peer: StackPointer { addr: 0 } }
    }

    /// Walk the synthetic frame chain `n` parents deep from frame pointer
    /// `fp`, returning the parked parent frame addresses in order, exactly
    /// as a frame walker reconstructs them.
    pub fn walk_chain(&self, fp: usize, n: usize) -> (got: Vec<usize>)
        requires
            chain_in_bounds(self@.mem, fp, n as nat),
        ensures
            got@ == chain_from(self@.mem, fp, n as nat),
    {
        let mut got: Vec<usize> = Vec::new();
        let mut cur: usize = fp;
        let mut i: usize = 0;
        while i < n
            invariant
                i <= n,
                chain_in_bounds(self@.mem, cur, (n - i) as nat),
                got@.len() == i,
                chain_from(self@.mem, fp, n as nat) =~= got@.add(
                    chain_from(self@.mem, cur, (n - i) as nat),
                ),
            decreases n - i,
        {
            let parent = self.read(cur);
            got.push(parent);
            cur = self.read(parent);
            i = i + 1;
        }
        got
    }

    /// Load the frame at `target`: restore the saved frame pointer, resume
    /// past the frame, and classify the transfer by the frame's return
    /// address.
    fn load(&mut self, arg: usize, target: usize, parked: usize) -> (ev: Event)
        requires
            old(self)@.mem.len() <= usize::MAX,
            valid_target(old(self)@.mem, target),
        ensures
            final(self)@ == load_frame(old(self)@.mem, arg, target, parked).0,
            ev == load_frame(old(self)@.mem, arg, target, parked).1,
    {
        let rbp2 = self.mem[target];
        let ra = self.mem[target + 1];
        self.sp = target + 2;
        self.rbp = rbp2;
        if ra == RA_STAGE2 {
            let fptr = self.mem[target + 4];
            Event::Entered { fptr, arg, peer: StackPointer { addr: parked } }
        } else {
            Event::Resumed { arg, peer: StackPointer { addr: parked } }
        }
    }
}

} // verus!
