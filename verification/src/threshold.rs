//! The priority threshold: the level at or below which no task may start.

use vstd::prelude::*;

verus! {

/// The priority of the idle context: every task priority lies above it.
pub const IDLE_PRIORITY: u8 = 0;

/// The value that makes an interrupt controller with `bits` priority bits
/// enforce the level `level` through its base priority register. The
/// register counts the other way round: zero masks nothing, and of two
/// values the lower one stands for the more urgent level.
pub open spec fn base_priority(level: u8, bits: u8) -> u8 {
    if level == 0 {
        0u8
    } else {
        ((((1u32 << bits) - level) as u32) << ((8 - bits) as u32)) as u8
    }
}

/// Above idle, the register value is never the one that masks nothing, and
/// a higher level gives a lower value.
pub proof fn lemma_base_priority_order(low: u8, high: u8, bits: u8)
    requires
        1 <= bits <= 8,
        1 <= low <= high,
        high < (1u32 << bits),
    ensures
        0 < base_priority(high, bits) <= base_priority(low, bits),
        low < high ==> base_priority(high, bits) < base_priority(low, bits),
{
    let upper: u8 = ((((1u32 << bits) - high) as u32) << ((8 - bits) as u32)) as u8;
    let lower: u8 = ((((1u32 << bits) - low) as u32) << ((8 - bits) as u32)) as u8;
    assert(0 < upper <= lower && (low < high ==> upper < lower)) by (bit_vector)
        requires
            1 <= bits <= 8,
            1 <= low <= high,
            high < (1u32 << bits),
            upper == ((((1u32 << bits) - high) as u32) << ((8 - bits) as u32)) as u8,
            lower == ((((1u32 << bits) - low) as u32) << ((8 - bits) as u32)) as u8,
    ;
}

/// Token for the currently enforced priority level. A context that holds a
/// threshold of value `p` cannot be preempted by a task of priority `<= p`.
pub struct Threshold {
    value: u8,
}

impl Threshold {
    /// The enforced level.
    pub closed spec fn view(&self) -> u8 {
        self.value
    }

    /// A threshold at `value`, as handed to a task that runs at that priority.
    pub fn new(value: u8) -> (t: Threshold)
        ensures
            t@ == value,
    {
        Threshold { value }
    }

    /// The enforced level.
    pub fn value(&self) -> (v: u8)
        ensures
            v == self@,
    {
        self.value
    }

    /// The value to write to the base priority register of an interrupt
    /// controller with `bits` priority bits so that it enforces this
    /// threshold. There is none where the controller has no such number of
    /// bits or no such level.
    pub fn basepri(&self, bits: u8) -> (value: Option<u8>)
        ensures
            value == (if 1 <= bits <= 8 && self@ < (1u32 << bits) {
                Some(base_priority(self@, bits))
            } else {
                None
            }),
    {
        let level = self.value;
        if bits < 1 || bits > 8 || level as u32 >= (1u32 << bits) {
            None
        } else if level == 0 {
            Some(0)
        } else {
            assert(((((1u32 << bits) - level) as u32) << ((8 - bits) as u32)) <= 255) by (bit_vector)
                requires
                    1 <= bits <= 8,
                    1 <= level,
                    level < (1u32 << bits),
            ;
            let shifted: u32 = ((1u32 << bits) - level as u32) << (8 - bits);
            Some(shifted as u8)
        }
    }

    /// Raises the threshold to `level` and returns the level it had before.
    /// The threshold is only ever raised here: `level` is not below it.
    pub fn raise_to(&mut self, level: u8) -> (previous: u8)
        requires
            level >= old(self)@,
        ensures
            final(self)@ == level,
            previous == old(self)@,
    {
        let previous = self.value;
        self.value = level;
        previous
    }

    /// Lowers the threshold back to `previous`, the level that `raise_to`
    /// returned when the scope was entered.
    pub fn restore(&mut self, previous: u8)
        ensures
            final(self)@ == previous,
    {
        self.value = previous;
    }
}

} // verus!
