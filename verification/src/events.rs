//! Input-event polling configuration. The polling itself, and the
//! decoding of raw terminal input into [`crate::state::AppCommand`]
//! values, belong to the surrounding program; only the timing knob lives
//! here.

use vstd::prelude::*;

verus! {

/// Configuration for event polling: how long one poll may wait, in
/// milliseconds, so the main loop neither blocks nor spins.
#[derive(Debug, Clone, Copy, PartialEq, Eq, Structural)]
pub struct EventHandler {
    /// Timeout for event polling in milliseconds
    pub poll_timeout_ms: u64,
}

impl EventHandler {
    /// A handler with the default poll timeout of 100 milliseconds.
    pub fn new() -> (r: Self)
        ensures
            r.poll_timeout_ms == 100,
    {
        EventHandler { poll_timeout_ms: 100 }
    }

    /// A handler with a custom poll timeout.
    pub fn with_timeout(timeout_ms: u64) -> (r: Self)
        ensures
            r.poll_timeout_ms == timeout_ms,
    {
        EventHandler { poll_timeout_ms: timeout_ms }
    }

    /// The current poll timeout in milliseconds.
    pub fn poll_timeout(&self) -> (r: u64)
        ensures
            r == self.poll_timeout_ms,
    {
        self.poll_timeout_ms
    }

    /// Set a new poll timeout in milliseconds.
    pub fn set_poll_timeout(&mut self, timeout_ms: u64)
        ensures
            final(self).poll_timeout_ms == timeout_ms,
    {
        self.poll_timeout_ms = timeout_ms;
    }
}

impl Default for EventHandler {
    /// The default handler: a poll timeout of 100 milliseconds.
    fn default() -> (r: Self)
        ensures
            r.poll_timeout_ms == 100,
    {
        EventHandler::new()
    }
}

} // verus!
