//! Shared state behind a priority ceiling.
//!
//! A resource parks a value that several tasks may use. Its ceiling is the
//! highest priority among those tasks. The value is reached only inside a
//! claim, which raises the threshold to the ceiling for the length of a
//! closure and puts it back afterwards, so nothing that could touch the value
//! can start while the closure runs.

use vstd::prelude::*;
use crate::threshold::Threshold;

verus! {

/// A value shared between tasks, with the ceiling that guards it.
pub struct Resource<T> {
    value: T,
    ceiling: u8,
}

impl<T> Resource<T> {
    /// The parked value.
    pub closed spec fn view(&self) -> T {
        self.value
    }

    /// The ceiling fixed at construction.
    pub closed spec fn spec_ceiling(&self) -> u8 {
        self.ceiling
    }

    /// Parks `value` behind `ceiling`. Meant for the initialisation phase,
    /// when no task can run yet and no threshold exists.
    pub fn new(value: T, ceiling: u8) -> (r: Resource<T>)
        ensures
            r@ == value,
            r.spec_ceiling() == ceiling,
    {
        Resource { value, ceiling }
    }

    /// The ceiling fixed at construction.
    #[verifier::when_used_as_spec(spec_ceiling)]
    pub fn ceiling(&self) -> (c: u8)
        ensures
            c == self.spec_ceiling(),
    {
        self.ceiling
    }

    /// Runs `f` with shared access to the value while the threshold stands at
    /// the ceiling, then puts the threshold back where it was.
    pub fn claim<R, F>(&self, t: &mut Threshold, f: F) -> (ret: R) where
        F: FnOnce(&T, &mut Threshold) -> R,

        requires
            self.spec_ceiling() >= old(t)@,
            forall|th: &mut Threshold|
                th@ == self.spec_ceiling() ==> call_requires(f, (&self@, th)),
        ensures
            final(t)@ == old(t)@,
            exists|th: &mut Threshold|
                th@ == self.spec_ceiling() && call_ensures(f, (&self@, th), ret),
    {
        let previous = t.raise_to(self.ceiling);
        let ret = f(&self.value, t);
        t.restore(previous);
        ret
    }

    /// Runs `f` with exclusive access to the value while the threshold stands
    /// at the ceiling, then puts the threshold back where it was. The value
    /// that `f` leaves is the value parked afterwards.
    pub fn claim_mut<R, F>(&mut self, t: &mut Threshold, f: F) -> (ret: R) where
        F: FnOnce(&mut T, &mut Threshold) -> R,

        requires
            old(self).spec_ceiling() >= old(t)@,
            forall|v: &mut T, th: &mut Threshold|
                *v == old(self)@ && th@ == old(self).spec_ceiling() ==> call_requires(f, (v, th)),
        ensures
            final(t)@ == old(t)@,
            final(self).spec_ceiling() == old(self).spec_ceiling(),
            exists|v: &mut T, th: &mut Threshold|
                *v == old(self)@ && *final(v) == final(self)@ && th@ == old(self).spec_ceiling()
                    && call_ensures(f, (v, th), ret),
    {
        let previous = t.raise_to(self.ceiling);
        let ret = f(&mut self.value, t);
        t.restore(previous);
        ret
    }
}

} // verus!
