// Tests of the architecture-specific register records and frame
// initializers.

use reg_context::detail::aarch64_unix::{
    initialize_call_frame, swap_registers, Cpu, Registers, FP, LR, SP, X19, X20, X21,
};
use reg_context::detail::align_down;
use reg_context::machine::{Machine, RA_BOOTSTRAP};

#[test]
fn test_x86_64_registers_start_null() {
    let r = reg_context::detail::x86_64_unix::Registers::new();
    assert_eq!(r.get_sp().address(), 0);
    let root = reg_context::detail::x86_64_unix::Registers::root();
    assert_eq!(root.get_sp().address(), 0);
    r.prefetch();
}

#[test]
fn test_aarch64_registers_start_zeroed() {
    let r = Registers::new();
    for i in 0..16 {
        assert_eq!(r.slot(i), 0);
    }
    r.prefetch();
}

#[test]
fn test_align_down() {
    assert_eq!(align_down(21), 20);
    assert_eq!(align_down(20), 20);
    assert_eq!(align_down(1), 0);
}

#[test]
fn test_aarch64_call_frame() {
    // An odd stack top exercises the final alignment; the designated slots
    // take the stashed words and the four sentinel words are zeroed.
    let mut m = Machine::new(4);
    let stk = m.alloc_stack(16);
    assert_eq!(stk.end() % 2, 1);
    let top = align_down(stk.end());

    let mut regs = Registers::new();
    initialize_call_frame(&mut regs, 0xF00, 0xA1, 0xA2, &stk, &mut m);

    assert_eq!(regs.slot(X19), 0xA1);
    assert_eq!(regs.slot(X20), 0xA2);
    assert_eq!(regs.slot(X21), 0xF00);
    assert_eq!(regs.slot(FP), top - 4);
    assert_eq!(regs.slot(LR), RA_BOOTSTRAP);
    assert_eq!(regs.slot(SP), top - 4);
    for a in (top - 4)..top {
        assert_eq!(m.read(a), 0);
    }
}

#[test]
fn test_register_round_trip() {
    // A switch out through a peer that does not touch the saved record
    // restores every callee-saved slot bit for bit.
    let mut cpu = Cpu::new();
    for i in 0..16 {
        cpu.set_slot(i, 100 + i);
    }
    let peer = Registers::new();

    // Switch away: the live file is saved into `mine`, the peer's loaded.
    let mut mine = Registers::new();
    swap_registers(&mut cpu, &mut mine, &peer);
    for i in 0..16 {
        assert_eq!(cpu.slot(i), 0);
        assert_eq!(mine.slot(i), 100 + i);
    }

    // Switch back through the untouched record.
    let mut peers_record = Registers::new();
    swap_registers(&mut cpu, &mut peers_record, &mine);
    for i in 0..16 {
        assert_eq!(cpu.slot(i), 100 + i);
        assert_eq!(peers_record.slot(i), 0);
    }
}
