//! Blinks an LED

use vstd::prelude::*;
use crate::led::{leds, Port};
use crate::resource::Resource;
use crate::threshold::Threshold;

verus! {

/// The counter after one tick: it runs through `0..32`.
pub open spec fn counted(counter: u32) -> u32 {
    ((counter + 1) as u32) & 31
}

/// The output latch after a tick that left the counter at `counter`: the
/// first LED is lit in the upper half of the count, the second in the lower.
pub open spec fn shown(lines: u16, counter: u32) -> u16 {
    if counter & 16 != 0 {
        (lines | (1u16 << 13u8)) & !(1u16 << 14u8)
    } else {
        (lines & !(1u16 << 13u8)) | (1u16 << 14u8)
    }
}

/// Toggle the state of the LED
pub fn toggle(t: &mut Threshold, counter: &mut Resource<u32>, port: &mut Port)
    requires
        old(counter).spec_ceiling() >= old(t)@,
        old(counter)@ < u32::MAX,
    ensures
        final(t)@ == old(t)@,
        final(counter).spec_ceiling() == old(counter).spec_ceiling(),
        final(counter)@ == counted(old(counter)@),
        final(port)@ == shown(old(port)@, final(counter)@),
{
    let tick = |c: &mut u32, _t: &mut Threshold| -> (count: u32)
        requires
            *c < u32::MAX,
        ensures
            *final(c) == counted(*old(c)),
            count == *final(c),
        {
            *c = (*c + 1) & 31;
            *c
        };
    let count = counter.claim_mut(t, tick);
    let all = leds();
    if (count & 16) != 0 {
        all[0].on(port);
        all[1].off(port);
    } else {
        all[0].off(port);
        all[1].on(port);
    }
}

} // verus!
