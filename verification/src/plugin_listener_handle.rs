//! The registration token handed out when a listener is installed.

use vstd::prelude::*;

verus! {

/// A handle for one active listener registration.
///
/// The handle is the only way to remove the registration again, so it must
/// either be stored for later removal or deliberately leaked; it is consumed
/// on removal, which makes reuse of a removed registration unrepresentable.
#[derive(Debug, PartialEq, Eq, Structural)]
#[must_use]
pub struct PluginListenerHandle {
    id: u64,
}

impl View for PluginListenerHandle {
    type V = u64;

    closed spec fn view(&self) -> u64 {
        self.id
    }
}

impl PluginListenerHandle {
    /// Wraps the identifier the host runtime returned for a new
    /// registration.
    pub fn new(id: u64) -> (r: Self)
        ensures
            r@ == id,
    {
        PluginListenerHandle { id }
    }

    /// The identifier the host runtime knows this registration by.
    pub fn raw_id(&self) -> (r: u64)
        ensures
            r == self@,
    {
        self.id
    }

    /// Give up the ability to remove this registration: the callback stays
    /// installed for the rest of the process's life.
    pub fn leak(self) {
    }
}

} // verus!
