//! Whether a pseudo-terminal is open.

use vstd::prelude::*;

verus! {

/// The flag that says whether the pseudo-terminal is open.
#[derive(Debug, PartialEq, Eq)]
pub struct OpenFlag {
    open: bool,
}

impl View for OpenFlag {
    type V = bool;

    closed spec fn view(&self) -> bool {
        self.open
    }
}

impl OpenFlag {
    /// A flag that says open.
    pub fn new() -> (flag: OpenFlag)
        ensures
            flag@,
    {
        OpenFlag { open: true }
    }

    /// Whether the flag says open.
    pub fn is_set(&self) -> (open: bool)
        ensures
            open == self@,
    {
        self.open
    }

    /// Clears the flag, for good.
    pub fn clear(&mut self)
        ensures
            !final(self)@,
    {
        self.open = false;
    }
}

/// A new flag says open, and goes on to say so however often it is looked at.
pub proof fn law_new_flag_says_open(flag: OpenFlag, open: bool)
    requires
        call_ensures(OpenFlag::new, (), flag),
        call_ensures(OpenFlag::is_set, (&flag,), open),
    ensures
        open,
{
}

/// A flag that was cleared does not say open, whatever it said before.
pub proof fn law_cleared_flag_says_closed(flag: &mut OpenFlag, open: bool)
    requires
        call_ensures(OpenFlag::clear, (flag,), ()),
        call_ensures(OpenFlag::is_set, (&*final(flag),), open),
    ensures
        !open,
{
}

} // verus!
