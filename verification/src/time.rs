//! Units of time and frequency.

use vstd::prelude::*;

verus! {

/// `Hz^-1`
#[derive(Clone, Copy, Debug, PartialEq, Eq, Structural)]
pub struct IHertz(pub u32);

/// `Hz`
#[derive(Clone, Copy, Debug, PartialEq, Eq, Structural)]
pub struct Hertz(pub u32);

/// `us`
#[derive(Clone, Copy, Debug, PartialEq, Eq, Structural)]
pub struct Microseconds(pub u32);

/// `ms`
#[derive(Clone, Copy, Debug, PartialEq, Eq, Structural)]
pub struct Milliseconds(pub u32);

/// `s`
#[derive(Clone, Copy, Debug, PartialEq, Eq, Structural)]
pub struct Seconds(pub u32);

impl IHertz {
    /// Invert this quantity
    pub fn invert(self) -> (hz: Hertz)
        ensures
            hz.0 == self.0,
    {
        Hertz(self.0)
    }
}

impl Hertz {
    /// Invert this quantity
    pub fn invert(self) -> (ihz: IHertz)
        ensures
            ihz.0 == self.0,
    {
        IHertz(self.0)
    }
}

} // verus!
