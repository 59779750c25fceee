//! Advance Peripheral Bus 1 (APB1)

use vstd::prelude::*;
use vstd::std_specs::convert::FromSpecImpl;
use crate::time::{IHertz, Microseconds, Milliseconds, Seconds};

verus! {

/// Frequency
pub const FREQUENCY: u32 = 42_000_000;

/// Ticks in a microsecond.
pub const PER_MICROSECOND: u32 = 42;

/// Ticks in a millisecond.
pub const PER_MILLISECOND: u32 = 42_000;

/// Unit of time
#[derive(Clone, Copy, Debug, PartialEq, Eq, PartialOrd, Ord, Structural)]
pub struct Ticks(pub u32);

impl Ticks {
    /// Applies the function `f` to the inner value
    pub fn map<F>(self, f: F) -> (ticks: Self) where F: FnOnce(u32) -> u32
        requires
            call_requires(f, (self.0,)),
        ensures
            call_ensures(f, (self.0,), ticks.0),
    {
        Ticks(f(self.0))
    }

    /// The ticks in one period of a frequency that is not zero.
    pub fn from_ihertz(ihz: IHertz) -> (ticks: Ticks)
        requires
            ihz.0 != 0,
        ensures
            ticks.0 == FREQUENCY / ihz.0,
    {
        Ticks(FREQUENCY / ihz.0)
    }

    /// The ticks in a span of microseconds, where their count fits.
    pub fn from_microseconds(us: Microseconds) -> (ticks: Ticks)
        requires
            us.0 * PER_MICROSECOND <= u32::MAX,
        ensures
            ticks.0 == us.0 * PER_MICROSECOND,
    {
        Ticks(us.0 * PER_MICROSECOND)
    }

    /// The ticks in a span of milliseconds, where their count fits.
    pub fn from_milliseconds(ms: Milliseconds) -> (ticks: Ticks)
        requires
            ms.0 * PER_MILLISECOND <= u32::MAX,
        ensures
            ticks.0 == ms.0 * PER_MILLISECOND,
    {
        Ticks(ms.0 * PER_MILLISECOND)
    }

    /// The ticks in a span of seconds, where their count fits.
    pub fn from_seconds(s: Seconds) -> (ticks: Ticks)
        requires
            s.0 * FREQUENCY <= u32::MAX,
        ensures
            ticks.0 == s.0 * FREQUENCY,
    {
        Ticks(s.0 * FREQUENCY)
    }
}

impl From<Ticks> for Microseconds {
    fn from(ticks: Ticks) -> (us: Microseconds) {
        Microseconds(ticks.0 / PER_MICROSECOND)
    }
}

impl FromSpecImpl<Ticks> for Microseconds {
    open spec fn obeys_from_spec() -> bool {
        true
    }

    open spec fn from_spec(ticks: Ticks) -> Microseconds {
        Microseconds(ticks.0 / PER_MICROSECOND)
    }
}

impl From<Ticks> for Milliseconds {
    fn from(ticks: Ticks) -> (ms: Milliseconds) {
        Milliseconds(ticks.0 / PER_MILLISECOND)
    }
}

impl FromSpecImpl<Ticks> for Milliseconds {
    open spec fn obeys_from_spec() -> bool {
        true
    }

    open spec fn from_spec(ticks: Ticks) -> Milliseconds {
        Milliseconds(ticks.0 / PER_MILLISECOND)
    }
}

impl From<Ticks> for Seconds {
    fn from(ticks: Ticks) -> (s: Seconds) {
        Seconds(ticks.0 / FREQUENCY)
    }
}

impl FromSpecImpl<Ticks> for Seconds {
    open spec fn obeys_from_spec() -> bool {
        true
    }

    open spec fn from_spec(ticks: Ticks) -> Seconds {
        Seconds(ticks.0 / FREQUENCY)
    }
}

impl From<Ticks> for u32 {
    fn from(ticks: Ticks) -> (count: u32) {
        ticks.0
    }
}

impl FromSpecImpl<Ticks> for u32 {
    open spec fn obeys_from_spec() -> bool {
        true
    }

    open spec fn from_spec(ticks: Ticks) -> u32 {
        ticks.0
    }
}

} // verus!
