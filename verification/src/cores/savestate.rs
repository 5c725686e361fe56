//! The hook through which a running core asks for its state to be stored.
//!
//! The manager does not look at the bytes: it hands them to the hook, where
//! one is set, and hands back what the hook gave.

use crate::text::str_eq;
use vstd::prelude::*;

verus! {

/// Hands a request to store a state to the hook: the screenshot where the
/// core took one, the slot, and the state. Without a hook the request is
/// done with nothing stored.
pub fn relay_save_state<F: Fn(Option<&[u8]>, usize, &[u8]) -> Result<(), String>>(
    hook: Option<&F>,
    screenshot: Option<&[u8]>,
    slot: usize,
    savestate: &[u8],
) -> (r: Result<(), String>)
    requires
        hook.is_some() ==> call_requires(*hook.unwrap(), (screenshot, slot, savestate)),
    ensures
        hook.is_none() ==> r.is_ok(),
        hook.is_some() ==> call_ensures(*hook.unwrap(), (screenshot, slot, savestate), r),
{
    match hook {
        Some(f) => f(screenshot, slot, savestate),
        None => Ok(()),
    }
}

/// What a core tells those who listen to it.
#[derive(Clone, Copy, Debug, PartialEq, Eq, Structural)]
pub enum Events {
    /// The core asks for its state to be stored.
    SaveState,
    /// The core exits.
    Quit,
}

impl Events {
    /// The name of the event.
    pub open spec fn spec_name(self) -> Seq<char> {
        match self {
            Events::SaveState => "saveState"@,
            Events::Quit => "quit"@,
        }
    }

    /// The event of a name.
    pub open spec fn spec_from_str(s: Seq<char>) -> Option<Events> {
        if s == "saveState"@ {
            Some(Events::SaveState)
        } else if s == "quit"@ {
            Some(Events::Quit)
        } else {
            None
        }
    }

    /// The name of the event.
    pub fn name(&self) -> (r: &'static str)
        ensures
            r@ == self.spec_name(),
    {
        match self {
            Events::SaveState => "saveState",
            Events::Quit => "quit",
        }
    }

    /// The event of a name; `None` for a name of no event.
    pub fn from_str(s: &str) -> (r: Option<Events>)
        ensures
            r == Events::spec_from_str(s@),
            r.is_some() ==> r.unwrap().spec_name() == s@,
    {
        if str_eq(s, "saveState") {
            Some(Events::SaveState)
        } else if str_eq(s, "quit") {
            Some(Events::Quit)
        } else {
            None
        }
    }
}

} // verus!
