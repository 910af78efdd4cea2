//! The channel handle owned by a notification manager.

use vstd::prelude::*;

verus! {

/// An opaque handle to the notification channel granted by the environment.
/// The manager owns it exclusively; collaborators may only borrow it.
#[derive(Clone, Copy, Debug, PartialEq, Eq, Structural)]
pub struct Handle {
    pub raw: u32,
}

impl Handle {
    /// Wraps the raw channel identifier handed out by the environment.
    pub fn new(raw: u32) -> (handle: Handle)
        ensures
            handle.raw == raw,
    {
        Handle { raw }
    }

    /// The raw channel identifier, for composing the channel with other
    /// wait primitives.
    pub fn get_raw(&self) -> (raw: u32)
        ensures
            raw == self.raw,
    {
        self.raw
    }
}

} // verus!
