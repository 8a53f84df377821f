//! Stack regions and in-stack addresses.
//!
//! A [`Stack`] is a contiguous region `[begin, end)` of the machine's
//! word-addressed arena; `end` is the high address and the stack grows down.
//! A [`StackPointer`] is an address inside such a region, or the null
//! sentinel `0` for a context that is uninitialized or finished.

use vstd::prelude::*;

verus! {

/// An address within a stack, measured in machine words.
///
/// The address `0` is the null sentinel: a context whose saved stack pointer
/// is null is either not yet initialized or already finished and must not be
/// resumed.
#[derive(Clone, Copy, PartialEq, Eq, Structural, Debug)]
pub struct StackPointer {
    /// The word address this pointer stands at.
    pub addr: usize,
}

impl StackPointer {
    /// Wrap a word address.
    pub fn new(addr: usize) -> (sp: StackPointer)
        ensures
            sp.addr == addr,
    {
        StackPointer { addr }
    }

    /// The null sentinel.
    pub fn null() -> (sp: StackPointer)
        ensures
            sp.addr == 0,
    {
        StackPointer { addr: 0 }
    }

    /// The word address this pointer stands at.
    pub fn address(&self) -> (a: usize)
        ensures
            a == self.addr,
    {
        self.addr
    }

    /// Whether this is the null sentinel.
    pub fn is_null(&self) -> (b: bool)
        ensures
            b == (self.addr == 0),
    {
        self.addr == 0
    }
}

/// A stack memory region `[begin, end)` carved from the machine's arena.
///
/// `end` is the high address; frames are built downward from it.  The region
/// never contains the reserved address `0`, so a genuine in-stack address is
/// always distinct from the null sentinel.
#[derive(Clone, Copy, PartialEq, Eq, Structural, Debug)]
pub struct Stack {
    /// Low end of the region (inclusive), in words.
    pub begin: usize,
    /// High end of the region (exclusive), in words.
    pub end: usize,
}

impl Stack {
    /// Number of words in the region.
    pub open spec fn words(&self) -> int {
        self.end - self.begin
    }

    /// The region lies inside an arena of the given contents, above the
    /// reserved null address.
    pub open spec fn in_arena(&self, mem: Seq<usize>) -> bool {
        1 <= self.begin <= self.end <= mem.len()
    }

    /// Low end of the region (inclusive).
    pub fn begin(&self) -> (b: usize)
        ensures
            b == self.begin,
    {
        self.begin
    }

    /// High end of the region (exclusive); the address a fresh context's
    /// first frame is built down from.
    pub fn end(&self) -> (e: usize)
        ensures
            e == self.end,
    {
        self.end
    }
}

} // verus!
