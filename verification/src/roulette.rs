//! A LED roulette!

use vstd::prelude::*;
use vstd::arithmetic::div_mod::{lemma_add_mod_noop, lemma_mod_self_0, lemma_small_mod};
use crate::led::{leds, Port, LED_COUNT};
use crate::resource::Resource;
use crate::threshold::Threshold;

verus! {

/// The position after `curr` on a ring of `n` positions.
pub open spec fn advanced(curr: int, n: int) -> int {
    (curr + 1) % n
}

/// The position reached from `curr` in `ticks` steps on a ring of `n`.
pub open spec fn advanced_by(curr: int, n: int, ticks: nat) -> int
    decreases ticks,
{
    if ticks == 0 {
        curr
    } else {
        advanced(advanced_by(curr, n, (ticks - 1) as nat), n)
    }
}

/// The output latch after the LED at `curr` went off and the one at `next`
/// went on.
pub open spec fn spun(lines: u16, curr: u8, next: u8) -> u16 {
    (lines & !(1u16 << ((13 + curr) as u8))) | (1u16 << ((13 + next) as u8))
}

/// Steps add up around the ring.
pub proof fn lemma_advanced_by(curr: int, n: int, ticks: nat)
    requires
        0 <= curr < n,
    ensures
        advanced_by(curr, n, ticks) == (curr + ticks) % n,
    decreases ticks,
{
    if ticks == 0 {
        lemma_small_mod(curr as nat, n as nat);
    } else {
        lemma_advanced_by(curr, n, (ticks - 1) as nat);
        if n > 1 {
            lemma_add_mod_noop(curr + ticks - 1, 1, n);
            lemma_small_mod(1, n as nat);
        }
    }
}

/// The roulette is cyclic: after as many ticks as the ring has positions it
/// stands where it started.
pub proof fn lemma_full_turn(curr: int, n: int)
    requires
        0 <= curr < n,
    ensures
        advanced_by(curr, n, n as nat) == curr,
{
    lemma_advanced_by(curr, n, n as nat);
    lemma_add_mod_noop(curr, n, n);
    lemma_mod_self_0(n);
    lemma_small_mod(curr as nat, n as nat);
}

/// One tick of the roulette: the LED at the current position goes off, the
/// next one goes on, and the position moves on.
pub fn roulette(t: &mut Threshold, state: &mut Resource<u8>, port: &mut Port)
    requires
        old(state).spec_ceiling() >= old(t)@,
        old(state)@ < LED_COUNT,
    ensures
        final(t)@ == old(t)@,
        final(state).spec_ceiling() == old(state).spec_ceiling(),
        final(state)@ == advanced(old(state)@ as int, LED_COUNT as int),
        final(port)@ == spun(old(port)@, old(state)@, final(state)@),
{
    let step = |s: &mut u8, _t: &mut Threshold| -> (moved: (u8, u8))
        requires
            *s < LED_COUNT,
        ensures
            moved.0 == *old(s),
            moved.1 == advanced(*old(s) as int, LED_COUNT as int),
            *final(s) == moved.1,
        {
            let curr = *s;
            let next = (curr + 1) % LED_COUNT;
            *s = next;
            (curr, next)
        };
    let (curr, next) = state.claim_mut(t, step);
    let all = leds();
    all[curr as usize].off(port);
    all[next as usize].on(port);
}

} // verus!
