//! Console lifecycle state: whether a debug console is currently allocated
//! for the host process. The platform calls that actually allocate and free
//! the console live with the host plumbing; this type owns the decision and
//! the bookkeeping, and its contracts pin the flag after every transition.

use vstd::prelude::*;

verus! {

/// Tracks whether the host's debug console is allocated.
#[derive(Clone, Copy, PartialEq, Eq, Structural, Debug)]
pub struct ConsoleManager {
    pub console_allocated: bool,
}

impl Default for ConsoleManager {
    fn default() -> (c: Self)
        ensures
            !c.console_allocated,
    {
        ConsoleManager { console_allocated: false }
    }
}

impl ConsoleManager {
    /// A manager with no console allocated.
    pub fn new() -> (c: Self)
        ensures
            !c.console_allocated,
    {
        Self::default()
    }

    /// Bring the allocation state in line with the wish: allocate when a
    /// console is wanted and none is allocated, free when none is wanted
    /// and one is allocated. Afterwards the state equals the wish.
    pub fn maybe_alloc_console(&mut self, show_console: bool)
        ensures
            final(self).console_allocated == show_console,
    {
        if show_console && !self.console_allocated {
            self.console_allocated = true;
        } else if !show_console && self.console_allocated {
            self.free_console();
        }
    }

    /// Free the console if one is allocated; afterwards none is.
    pub fn free_console(&mut self)
        ensures
            !final(self).console_allocated,
    {
        if self.console_allocated {
            self.console_allocated = false;
        }
    }

    /// Whether a console is currently allocated.
    pub fn is_console_allocated(&self) -> (b: bool)
        ensures
            b == self.console_allocated,
    {
        self.console_allocated
    }

    /// Flip the allocation state.
    pub fn toggle_console(&mut self)
        ensures
            final(self).console_allocated == !old(self).console_allocated,
    {
        if self.console_allocated {
            self.free_console();
        } else {
            self.maybe_alloc_console(true);
        }
    }
}

} // verus!
