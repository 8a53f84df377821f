// Scenario tests driving the machine model through whole switch
// conversations: creation, linked entry, round trips, and finishing.

use reg_context::machine::{Event, Machine, CFA_SENTINEL, RA_RESUME, RA_STAGE1, RA_STAGE2};
use reg_context::reg_context::RegContext;
use reg_context::stack::StackPointer;

const MIN_STACK: usize = 256;

fn peer_of(ev: &Event) -> StackPointer {
    match ev {
        Event::Entered { peer, .. } => *peer,
        Event::Resumed { peer, .. } => *peer,
    }
}

fn arg_of(ev: &Event) -> usize {
    match ev {
        Event::Entered { arg, .. } => *arg,
        Event::Resumed { arg, .. } => *arg,
    }
}

#[test]
fn test_swap_context() {
    // The creator initializes a context whose entry function invokes a
    // callback once with the resuming stack pointer; the callback loops,
    // answering each received word with a counter starting at 42.
    let init_fn: usize = 0x4100;
    let callback: usize = 0x4200;

    let mut m = Machine::new(MIN_STACK);
    let stk = m.alloc_stack(MIN_STACK);
    let mut ctx = RegContext::empty();
    ctx.init_with(init_fn, &stk, &mut m);

    // Send the callback to the generator.
    let ev = RegContext::swap_link(&mut ctx, stk.end(), callback, &mut m);
    let (fptr, env, creator_sp) = match ev {
        Event::Entered { fptr, arg, peer } => (fptr, arg, peer),
        Event::Resumed { .. } => panic!("fresh context must be entered"),
    };
    assert_eq!(fptr, init_fn);
    assert_eq!(env, callback);

    // The generator side: construct a context for the creator and start
    // the exchange at 42.
    let mut dst = RegContext::root();
    dst.set_sp(creator_sp);
    let mut out: usize = 42;
    let ev = RegContext::swap(&mut dst, out, &mut m);

    // Creator observes 42 and answers 43.
    let ret = RegContext::swap_return(&mut ctx, &ev);
    assert_eq!(ret, 42);
    let ev = RegContext::swap_link(&mut ctx, stk.end(), ret + 1, &mut m);

    // Generator observes 43 and sends it back.
    let para = RegContext::swap_return(&mut dst, &ev);
    assert_ne!(para, 0);
    out += 1;
    assert_eq!(para, out);
    let ev = RegContext::swap(&mut dst, out, &mut m);

    // Creator observes 43 and answers 44.
    let ret = RegContext::swap_return(&mut ctx, &ev);
    assert_eq!(ret, 43);
    let ev = RegContext::swap_link(&mut ctx, stk.end(), ret + 1, &mut m);

    // Generator observes 44 and sends it back.
    let para = RegContext::swap_return(&mut dst, &ev);
    out += 1;
    assert_eq!(para, out);
    let ev = RegContext::swap(&mut dst, out, &mut m);

    // Creator observes 44 and finishes the generator with 0.
    let ret = RegContext::swap_return(&mut ctx, &ev);
    assert_eq!(ret, 44);
    let ev = RegContext::swap_link(&mut ctx, stk.end(), 0, &mut m);

    // Generator observes 0: the callback returns, the entry function
    // returns, and the trampoline epilogue jumps back to the creator.
    let para = RegContext::swap_return(&mut dst, &ev);
    assert_eq!(para, 0);
    let parent = dst.get_sp();
    let ev = m.finish(para, parent);

    // The creator's record of the finished context holds the null sentinel.
    RegContext::swap_return(&mut ctx, &ev);
    assert_eq!(ctx.get_sp().address(), 0);
}

#[test]
fn test_argument_fidelity_extremes() {
    // Any machine word crosses a switch bit for bit, including 0 and the
    // all-bits-set word.
    let mut m = Machine::new(MIN_STACK);
    let stk = m.alloc_stack(MIN_STACK);
    let mut ctx = RegContext::empty();
    ctx.init_with(0x4100, &stk, &mut m);

    let ev = RegContext::swap_link(&mut ctx, stk.end(), usize::MAX, &mut m);
    assert_eq!(arg_of(&ev), usize::MAX);

    let mut dst = RegContext::root();
    dst.set_sp(peer_of(&ev));
    let ev = RegContext::swap(&mut dst, 0, &mut m);
    assert_eq!(arg_of(&ev), 0);
    let ret = RegContext::swap_return(&mut ctx, &ev);
    assert_eq!(ret, 0);
}

#[test]
fn test_immediate_finish_reports_null() {
    // A context whose entry function returns immediately: one linked switch
    // in, and the creator's record of it becomes the null sentinel.
    let mut m = Machine::new(MIN_STACK);
    let stk = m.alloc_stack(MIN_STACK);
    let mut ctx = RegContext::empty();
    ctx.init_with(0x4100, &stk, &mut m);

    let ev = RegContext::swap_link(&mut ctx, stk.end(), 7, &mut m);
    assert_eq!(arg_of(&ev), 7);
    let parent = peer_of(&ev);
    assert_ne!(parent.address(), 0);

    // The entry function returns at once; the epilogue reports no parked
    // frame.
    let ev = m.finish(99, parent);
    let ret = RegContext::swap_return(&mut ctx, &ev);
    assert_eq!(ret, 99);
    assert_eq!(ctx.get_sp().address(), 0);
    assert!(ctx.get_sp().is_null());
}

#[test]
fn test_ping_pong_increment() {
    // Two contexts exchange an incrementing integer across three round
    // trips; the observed sequence is 7, 8, ..., 12, strictly alternating.
    let mut m = Machine::new(MIN_STACK);
    let stk = m.alloc_stack(MIN_STACK);
    let mut ctx = RegContext::empty();
    ctx.init_with(0x4100, &stk, &mut m);

    let ev = RegContext::swap_link(&mut ctx, stk.end(), 0x4200, &mut m);
    let mut gen = RegContext::root();
    gen.set_sp(peer_of(&ev));

    let mut observed: Vec<usize> = Vec::new();
    let mut v: usize = 7;
    for _ in 0..3 {
        // Generator sends v; creator observes it and answers v + 1.
        let ev = RegContext::swap(&mut gen, v, &mut m);
        let got = RegContext::swap_return(&mut ctx, &ev);
        observed.push(got);
        let ev = RegContext::swap_link(&mut ctx, stk.end(), got + 1, &mut m);
        let back = RegContext::swap_return(&mut gen, &ev);
        observed.push(back);
        v = back + 1;
    }
    assert_eq!(observed, vec![7, 8, 9, 10, 11, 12]);
}

#[test]
fn test_linked_chain_walk() {
    // Nest two contexts under the root by linked switches, then walk the
    // synthetic frame chain from the innermost: it visits each parked
    // parent frame recorded at link time, down to the root marker.
    let mut m = Machine::new(MIN_STACK);
    let stk_a = m.alloc_stack(MIN_STACK);
    let stk_b = m.alloc_stack(MIN_STACK);

    let mut ctx_a = RegContext::empty();
    ctx_a.init_with(0x4100, &stk_a, &mut m);
    let mut ctx_b = RegContext::empty();
    ctx_b.init_with(0x4100, &stk_b, &mut m);

    // Root links into A.
    let ev = RegContext::swap_link(&mut ctx_a, stk_a.end(), 1, &mut m);
    let root_parked = peer_of(&ev).address();

    // A links into B.
    let ev = RegContext::swap_link(&mut ctx_b, stk_b.end(), 2, &mut m);
    let a_parked = peer_of(&ev).address();

    // Walk from B's running frame pointer.
    let fp_b = m.current_rbp();
    assert_eq!(fp_b, stk_b.end() - 4);
    assert_eq!(m.read(fp_b), a_parked);
    let fp_a = m.read(a_parked);
    assert_eq!(fp_a, stk_a.end() - 4);
    assert_eq!(m.read(fp_a), root_parked);
    assert_eq!(m.read(root_parked), 0);

    // The frame walker reconstructs the parked parents in creation order.
    assert_eq!(m.walk_chain(fp_b, 2), vec![a_parked, root_parked]);
}

#[test]
fn test_initial_frame_layout() {
    // The initializer writes the two synthetic frames word by word.
    let mut m = Machine::new(8);
    let stk = m.alloc_stack(16);
    let mut ctx = RegContext::empty();
    ctx.init_with(0x77, &stk, &mut m);

    let end = stk.end();
    assert_eq!(ctx.get_sp().address(), end - 6);
    assert_eq!(m.read(end - 1), 0);
    assert_eq!(m.read(end - 2), 0x77);
    assert_eq!(m.read(end - 3), RA_STAGE1);
    assert_eq!(m.read(end - 4), CFA_SENTINEL);
    assert_eq!(m.read(end - 5), RA_STAGE2);
    assert_eq!(m.read(end - 6), end - 4);
    assert_eq!(CFA_SENTINEL, 0xdead0cfa);

    // A linked switch overwrites the link slot with the parked parent frame
    // and parks the resume address above the saved frame pointer.
    let sp_before = m.current_sp();
    let ev = RegContext::swap_link(&mut ctx, end, 5, &mut m);
    assert_eq!(peer_of(&ev).address(), sp_before - 2);
    assert_eq!(m.read(end - 4), sp_before - 2);
    assert_eq!(m.read(sp_before - 1), RA_RESUME);
}

#[test]
fn test_empty_and_root_are_null() {
    let ctx = RegContext::empty();
    assert!(ctx.get_sp().is_null());
    let root = RegContext::root();
    assert_eq!(root.get_sp().address(), 0);
    // The prefetch hint is skipped on a null stack pointer.
    ctx.prefetch();
    root.prefetch();
}

#[test]
fn test_stack_regions_disjoint_and_zeroed() {
    let mut m = Machine::new(4);
    let a = m.alloc_stack(8);
    let b = m.alloc_stack(8);
    assert!(a.begin() >= 1);
    assert_eq!(a.end(), a.begin() + 8);
    assert_eq!(b.begin(), a.end());
    assert_eq!(b.end(), m.len());
    let mut addr = a.begin();
    while addr < b.end() {
        assert_eq!(m.read(addr), 0);
        addr += 1;
    }
}
