//! Architecture-specific register records and frame initializers.
//!
//! Register layout is fixed per target, not a runtime property, so each
//! supported architecture is a module of its own behind the same interface:
//! a `Registers` record holding exactly the callee-saved state that must
//! survive a switch, and an initializer that fabricates the synthetic first
//! frame on a fresh stack.

pub mod aarch64_unix;
pub mod x86_64_unix;

use vstd::prelude::*;

verus! {

/// Align a word address down to the call-frame alignment of the target ABI:
/// sixteen bytes, two machine words.
pub open spec fn spec_align_down(addr: usize) -> usize {
    (addr - (addr % 2)) as usize
}

/// Align a word address down to the call-frame alignment (two words).
pub fn align_down(addr: usize) -> (a: usize)
    ensures
        a == spec_align_down(addr),
        a <= addr < a + 2,
        a % 2 == 0,
{
    addr - (addr % 2)
}

} // verus!
