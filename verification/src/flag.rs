//! The process-wide signal that the host program has begun to produce output.

use vstd::prelude::*;

verus! {

/// A boolean that starts lowered, can be raised, and is never lowered again.
pub struct SharedOutputFlag {
    raised: bool,
}

impl SharedOutputFlag {
    /// Whether the flag has been raised.
    pub closed spec fn view(&self) -> bool {
        self.raised
    }

    /// A lowered flag.
    pub fn new() -> (flag: Self)
        ensures
            !flag@,
    {
        SharedOutputFlag { raised: false }
    }

    /// Raises the flag; raising a raised flag changes nothing.
    pub fn raise(&mut self)
        ensures
            final(self)@,
    {
        self.raised = true;
    }

    /// Reads the flag.
    pub fn is_raised(&self) -> (raised: bool)
        ensures
            raised == self@,
    {
        self.raised
    }
}

} // verus!
