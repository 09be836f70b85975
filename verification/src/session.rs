//! The session state machine: handshake progress and shutdown status.
//!
//! A session starts awaiting the `initialize` request, moves past the
//! handshake once the `initialized` notification arrives, and ends when a
//! `shutdown` request has been acknowledged.

use vstd::prelude::*;

verus! {

/// The handshake and shutdown progress of a session.
pub enum SessionState {
    /// Nothing has happened yet: only an `initialize` request is acted on.
    AwaitingInitialize,
    /// The `initialize` request was answered; the `initialized` notification
    /// completes the handshake.
    AwaitingInitialized,
    /// The handshake is complete: recognized requests and notifications are
    /// dispatched.
    Initialized,
    /// A `shutdown` request was acknowledged: no further message is acted on.
    ShuttingDown,
}

/// The per-session state, owned and mutated by the loop driver alone.
pub struct Session {
    pub state: SessionState,
}

impl Session {
    /// A fresh session: the handshake has not begun.
    pub fn new() -> (s: Session)
        ensures
            s.state is AwaitingInitialize,
    {
        Session { state: SessionState::AwaitingInitialize }
    }

    /// The handshake has completed.
    pub open spec fn initialized(self) -> bool {
        self.state is Initialized || self.state is ShuttingDown
    }

    /// A shutdown request has been received and acknowledged.
    pub open spec fn shutdown_requested(self) -> bool {
        self.state is ShuttingDown
    }
}

} // verus!
