//! The laws of the switch protocol, stated and proved over the model's
//! specification-level transitions.
//!
//! Each law quantifies over machine states: it holds of every arena
//! contents, every argument word and every nesting of contexts that its
//! hypotheses admit, not merely of the scenarios the tests drive.

use vstd::prelude::*;

use crate::detail::aarch64_unix::swap_registers_spec;
use crate::detail::x86_64_unix::frame_initialized;
use crate::machine::{
    can_finish, can_park, can_switch, can_switch_link, chain_from, chain_in_bounds, finish_spec,
    park_of, switch_link_spec, switch_spec, wf_state, Event, State, RA_RESUME,
};
use crate::stack::{Stack, StackPointer};

verus! {

/// Argument fidelity, unlinked switch: any machine word passed to the
/// switch — including `0` and the all-bits-set word — is observed bit for
/// bit by the side the switch resumes, as is the caller's parked frame
/// address.
pub proof fn lemma_swap_argument_fidelity(s: State, arg: usize, target: usize)
    requires
        can_switch(s, target),
    ensures
        switch_spec(s, arg, target).1.arg_of() == arg,
        switch_spec(s, arg, target).1.peer_of() == park_of(s),
{
}

/// Argument fidelity, linked switch: as [`lemma_swap_argument_fidelity`],
/// with the link slot written in addition.
pub proof fn lemma_swap_link_argument_fidelity(s: State, arg: usize, target: usize, base: usize)
    requires
        can_switch_link(s, target, base),
    ensures
        switch_link_spec(s, arg, target, base).1.arg_of() == arg,
        switch_link_spec(s, arg, target, base).1.peer_of() == park_of(s),
{
}

/// A context whose entry function returns immediately: after exactly one
/// linked switch into a freshly initialized frame, the entry function is
/// invoked, and its return delivers the null sentinel in place of a parked
/// stack pointer to the resuming creator — the context is finished and must
/// not be resumed again.
pub proof fn lemma_immediate_return_reports_null(
    s: State,
    stk: Stack,
    fptr: usize,
    arg: usize,
    ret: usize,
)
    requires
        wf_state(s),
        can_park(s),
        stk.in_arena(s.mem),
        stk.words() >= 6,
        frame_initialized(s.mem, stk.end, fptr),
        s.sp <= stk.end - 6,
    ensures
        can_switch_link(s, (stk.end - 6) as usize, stk.end),
        switch_link_spec(s, arg, (stk.end - 6) as usize, stk.end).1 == (Event::Entered {
            fptr,
            arg,
            peer: StackPointer { addr: park_of(s) },
        }),
        can_finish(switch_link_spec(s, arg, (stk.end - 6) as usize, stk.end).0, park_of(s)),
        finish_spec(
            switch_link_spec(s, arg, (stk.end - 6) as usize, stk.end).0,
            ret,
            park_of(s),
        ).1 == (Event::Resumed { arg: ret, peer: StackPointer { addr: 0 } }),
{
}

/// The synthetic frame chain, walked from a running context's frame
/// pointer: the link slot the frame pointer aims at holds the parked frame
/// address of the parent, recorded at link time; the parked parent frame in
/// turn holds the frame pointer the parent was running with, from which the
/// walk continues.  A chain ends at the root marker `0`.
pub open spec fn chain_ok(mem: Seq<usize>, fp: usize, parents: Seq<usize>) -> bool
    decreases parents.len(),
{
    if parents.len() == 0 {
        fp == 0
    } else {
        fp < mem.len() && mem[fp as int] == parents[0] && parents[0] < mem.len() && chain_ok(
            mem,
            mem[parents[0] as int],
            parents.drop_first(),
        )
    }
}

/// The arena addresses a chain walk reads.
pub open spec fn chain_addrs(mem: Seq<usize>, fp: usize, parents: Seq<usize>) -> Set<usize>
    decreases parents.len(),
{
    if parents.len() == 0 {
        Set::empty()
    } else {
        set![fp, parents[0]].union(
            chain_addrs(mem, mem[parents[0] as int], parents.drop_first()),
        )
    }
}

/// A write outside the addresses a chain walk reads leaves the walk intact.
pub proof fn lemma_chain_unaffected(
    mem: Seq<usize>,
    fp: usize,
    parents: Seq<usize>,
    a: usize,
    w: usize,
)
    requires
        chain_ok(mem, fp, parents),
        !chain_addrs(mem, fp, parents).contains(a),
        a < mem.len(),
    ensures
        chain_ok(mem.update(a as int, w), fp, parents),
        chain_addrs(mem.update(a as int, w), fp, parents) == chain_addrs(mem, fp, parents),
    decreases parents.len(),
{
    if parents.len() == 0 {
    } else {
        assert(a != fp && a != parents[0]);
        lemma_chain_unaffected(mem, mem[parents[0] as int], parents.drop_first(), a, w);
    }
}

/// Linked-switch chain integrity, arbitrary nesting depth: when the running
/// context — whose own frame chain records its ancestors' parked frames in
/// creation order — performs a linked switch into a freshly initialized
/// stack, the entered context's chain records the exact frame address the
/// parent parked at, followed by the parent's own records, unchanged.
pub proof fn lemma_link_extends_chain(
    s: State,
    parents: Seq<usize>,
    stk: Stack,
    fptr: usize,
    arg: usize,
)
    requires
        wf_state(s),
        can_park(s),
        stk.in_arena(s.mem),
        stk.words() >= 6,
        frame_initialized(s.mem, stk.end, fptr),
        s.sp <= stk.end - 6,
        chain_ok(s.mem, s.rbp, parents),
        !chain_addrs(s.mem, s.rbp, parents).contains((s.sp - 1) as usize),
        !chain_addrs(s.mem, s.rbp, parents).contains((s.sp - 2) as usize),
        !chain_addrs(s.mem, s.rbp, parents).contains((stk.end - 4) as usize),
    ensures
        can_switch_link(s, (stk.end - 6) as usize, stk.end),
        chain_ok(
            switch_link_spec(s, arg, (stk.end - 6) as usize, stk.end).0.mem,
            switch_link_spec(s, arg, (stk.end - 6) as usize, stk.end).0.rbp,
            seq![park_of(s)].add(parents),
        ),
{
    let m1 = s.mem.update(s.sp - 1, RA_RESUME);
    let m2 = m1.update(s.sp - 2, s.rbp);
    let m3 = m2.update(stk.end - 4, park_of(s));
    lemma_chain_unaffected(s.mem, s.rbp, parents, (s.sp - 1) as usize, RA_RESUME);
    lemma_chain_unaffected(m1, s.rbp, parents, (s.sp - 2) as usize, s.rbp);
    lemma_chain_unaffected(m2, s.rbp, parents, (stk.end - 4) as usize, park_of(s));
    let spliced = seq![park_of(s)].add(parents);
    assert(spliced[0] == park_of(s));
    assert(spliced.drop_first() =~= parents);
    assert(m3[(stk.end - 4) as int] == park_of(s));
    assert(m3[park_of(s) as int] == s.rbp);
    assert(switch_link_spec(s, arg, (stk.end - 6) as usize, stk.end).0.rbp == (stk.end
        - 4) as usize);
}

/// A chain that satisfies [`chain_ok`] is exactly what a frame walker
/// reconstructs: the walk stays inside the arena and reads back the
/// recorded parked parent frames in creation order.
pub proof fn lemma_chain_walk_reconstructs(mem: Seq<usize>, fp: usize, parents: Seq<usize>)
    requires
        chain_ok(mem, fp, parents),
    ensures
        chain_in_bounds(mem, fp, parents.len()),
        chain_from(mem, fp, parents.len()) == parents,
    decreases parents.len(),
{
    if parents.len() == 0 {
    } else {
        lemma_chain_walk_reconstructs(mem, mem[parents[0] as int], parents.drop_first());
        assert(chain_from(mem, fp, parents.len()) =~= parents);
    }
}

/// The steady configuration of two contexts exchanging words by plain
/// switches: the peer is parked at `a_sp` with a switch resume address, the
/// running side has room to park, and the parked frame lies strictly below
/// the running side's push words, so neither side's parking disturbs the
/// other's frame.
pub open spec fn exchange_conf(s: State, a_sp: usize) -> bool {
    wf_state(s) && can_park(s) && 1 <= a_sp && a_sp + 2 <= s.mem.len() && s.mem[a_sp + 1]
        == RA_RESUME && a_sp + 4 <= s.sp
}

/// One round of the increment protocol: the running side sends `v` to the
/// parked peer; the resumed peer observes exactly `v` and answers `v + 1`
/// to the frame the sender parked at; the sender observes exactly `v + 1`.
/// Afterwards the configuration is restored: same stack pointer, same frame
/// pointer, peer parked at the same frame — registers not used for
/// argument or stack-pointer passing survive the round trip bit for bit.
pub proof fn lemma_exchange_round(s: State, a_sp: usize, v: usize)
    requires
        exchange_conf(s, a_sp),
        v < usize::MAX,
    ensures
        can_switch(s, a_sp),
        switch_spec(s, v, a_sp).1.arg_of() == v,
        switch_spec(s, v, a_sp).1.peer_of() == park_of(s),
        can_switch(switch_spec(s, v, a_sp).0, park_of(s)),
        switch_spec(switch_spec(s, v, a_sp).0, (v + 1) as usize, park_of(s)).1.arg_of() == v + 1,
        switch_spec(switch_spec(s, v, a_sp).0, (v + 1) as usize, park_of(s)).1.peer_of() == a_sp,
        exchange_conf(switch_spec(switch_spec(s, v, a_sp).0, (v + 1) as usize, park_of(s)).0, a_sp),
        switch_spec(switch_spec(s, v, a_sp).0, (v + 1) as usize, park_of(s)).0.sp == s.sp,
        switch_spec(switch_spec(s, v, a_sp).0, (v + 1) as usize, park_of(s)).0.rbp == s.rbp,
{
    let s1 = switch_spec(s, v, a_sp).0;
    assert(s1.sp == a_sp + 2);
    assert(park_of(s1) == a_sp);
}

/// The words observed across `n` rounds of the increment protocol, both
/// directions: each resumed side answers the word it observed, plus one.
pub open spec fn exchange_obs(s: State, a_sp: usize, v: usize, n: nat) -> Seq<usize>
    decreases n,
{
    if n == 0 {
        Seq::empty()
    } else {
        let e1 = switch_spec(s, v, a_sp).1;
        let s1 = switch_spec(s, v, a_sp).0;
        let v2 = (e1.arg_of() + 1) as usize;
        let e2 = switch_spec(s1, v2, park_of(s)).1;
        let s2 = switch_spec(s1, v2, park_of(s)).0;
        seq![e1.arg_of(), e2.arg_of()].add(
            exchange_obs(s2, a_sp, (e2.arg_of() + 1) as usize, (n - 1) as nat),
        )
    }
}

/// Two contexts exchanging an incrementing integer across `n` round trips
/// of plain switches: the sequence of observed values is strictly
/// deterministic — the `k`-th word observed, in either direction, is
/// exactly `v + k`.
pub proof fn lemma_exchange_protocol(s: State, a_sp: usize, v: usize, n: nat)
    requires
        exchange_conf(s, a_sp),
        v + 2 * n <= usize::MAX,
    ensures
        exchange_obs(s, a_sp, v, n).len() == 2 * n,
        forall|k: int| 0 <= k < 2 * n ==> exchange_obs(s, a_sp, v, n)[k] == v + k,
    decreases n,
{
    if n == 0 {
    } else {
        lemma_exchange_round(s, a_sp, v);
        let s1 = switch_spec(s, v, a_sp).0;
        let s2 = switch_spec(s1, (v + 1) as usize, park_of(s)).0;
        lemma_exchange_protocol(s2, a_sp, (v + 2) as usize, (n - 1) as nat);
        let obs = exchange_obs(s, a_sp, v, n);
        let rest = exchange_obs(s2, a_sp, (v + 2) as usize, (n - 1) as nat);
        assert(obs =~= seq![v, (v + 1) as usize].add(rest));
        assert forall|k: int| 0 <= k < 2 * n implies obs[k] == v + k by {
            if k >= 2 {
                assert(obs[k] == rest[k - 2]);
            }
        }
    }
}

/// Register preservation on the array-of-slots architecture: a switch to a
/// peer saves the live callee-saved file into the outgoing record; when the
/// peer — without modifying that record — switches back through it, every
/// slot of the live file is restored bit-identical.
pub proof fn lemma_register_round_trip(cpu: Seq<usize>, peer: Seq<usize>)
    ensures
        swap_registers_spec(
            swap_registers_spec(cpu, peer).0,
            swap_registers_spec(cpu, peer).1,
        ).0 == cpu,
        swap_registers_spec(
            swap_registers_spec(cpu, peer).0,
            swap_registers_spec(cpu, peer).1,
        ).1 == peer,
{
}

} // verus!
