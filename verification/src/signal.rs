//! The completion synchronizer.
//!
//! A binary signal: the hardware completion interrupt raises it exactly once
//! per non-blocking transfer, and the transfer engine's wait consumes it.
//! Consuming always leaves the signal clear, so a timed-out wait cannot
//! corrupt the next transfer's wait.

use vstd::prelude::*;

verus! {

/// A binary completion signal.  Its abstract value is whether it is raised.
pub struct CompletionSignal {
    raised: bool,
}

impl View for CompletionSignal {
    type V = bool;

    closed spec fn view(&self) -> bool {
        self.raised
    }
}

impl CompletionSignal {
    /// A clear signal.
    pub fn new() -> (r: Self)
        ensures
            !r@,
    {
        CompletionSignal { raised: false }
    }

    /// Raises the signal: called when the hardware reports completion.
    pub fn raise(&mut self)
        ensures
            final(self)@,
    {
        self.raised = true;
    }

    /// Consumes the signal: reports whether it was raised, and leaves it
    /// clear either way.
    pub fn try_consume(&mut self) -> (was_raised: bool)
        ensures
            was_raised == old(self)@,
            !final(self)@,
    {
        let was_raised = self.raised;
        self.raised = false;
        was_raised
    }

    /// Clears the signal without consuming it.
    pub fn reset(&mut self)
        ensures
            !final(self)@,
    {
        self.raised = false;
    }

    /// Whether the signal is raised.
    pub fn is_raised(&self) -> (b: bool)
        ensures
            b == self@,
    {
        self.raised
    }
}

} // verus!
