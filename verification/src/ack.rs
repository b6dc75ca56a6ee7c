//! The one-shot acknowledgment flag that an outside source raises and the
//! supervisor consumes.

use vstd::prelude::*;

verus! {

/// The flag after it was raised, whatever it was before.
pub open spec fn raised(flag: bool) -> bool {
    true
}

/// What consuming the flag reports, and the flag after it: the flag as it
/// was, and a cleared flag.
pub open spec fn taken(flag: bool) -> (bool, bool) {
    (flag, false)
}

/// A level-triggered flag: raising it any number of times before it is
/// consumed counts as one acknowledgment.
#[derive(Clone, Copy, Debug)]
pub struct Acknowledgment {
    flag: bool,
}

impl View for Acknowledgment {
    type V = bool;

    closed spec fn view(&self) -> bool {
        self.flag
    }
}

impl Acknowledgment {
    /// A flag that is not raised.
    pub fn new() -> (a: Acknowledgment)
        ensures
            !a@,
    {
        Acknowledgment { flag: false }
    }

    /// Whether the flag is raised. Changes nothing.
    pub fn is_raised(&self) -> (r: bool)
        ensures
            r == self@,
    {
        self.flag
    }

    /// Raises the flag.
    pub fn raise(&mut self)
        ensures
            final(self)@ == raised(old(self)@),
    {
        self.flag = true;
    }

    /// Reads and clears the flag in one step: reports whether it was raised
    /// and leaves it cleared.
    pub fn take(&mut self) -> (was: bool)
        ensures
            (was, final(self)@) == taken(old(self)@),
    {
        let was = self.flag;
        self.flag = false;
        was
    }
}

} // verus!
