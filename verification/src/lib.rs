//! Register-context-switch core of a stackful coroutine runtime, modeled and
//! verified at the machine-word level.
//!
//! One native thread cooperatively multiplexes many independently stacked
//! logical threads by swapping the callee-saved register set between two
//! stacks.  The memory a switch touches, the synthetic call frames the
//! initializer fabricates, and the protocol a switch follows are all plain
//! data; this crate models them on a word-addressed arena and proves the
//! layout and the transfer protocol correct.  The handful of fixed native
//! routines (the switch instruction sequences, the trampolines, the cache
//! prefetch hint) are pure register/stack operations whose data effect the
//! model states exactly; a runtime layer supplies them as machine code.
//!
//! Addresses in the model are measured in machine words.  The address `0` is
//! reserved as the null sentinel of a stack pointer: an uninitialized or
//! finished context.

pub mod detail;
pub mod laws;
pub mod machine;
pub mod reg_context;
pub mod stack;
