//! The process-level policy: what a signal means, and whether to connect
//! again once a session has ended.
use vstd::prelude::*;

verus! {

/// The signals the daemon reacts to.
#[derive(Debug, Clone, Copy, PartialEq, Eq, Structural)]
pub enum Signal {
    /// The user signal: reconnect now, or compact the store.
    Maintenance,
    /// A termination signal or a hangup.
    Terminate,
}

/// What the supervisor does next.
#[derive(Debug, Clone, Copy, PartialEq, Eq, Structural)]
pub enum Decision {
    /// Close the store, compact it, reopen it, and go on idling.
    CompactStore,
    /// Tell the server to stop idling and end the session cleanly.
    EndSession,
    /// Wait a fixed interval, or until a signal comes, then decide again.
    Backoff,
    /// Connect again without waiting out the back-off.
    ReconnectNow,
    /// Leave the process.
    Exit,
}

/// What a signal calls for while a session is connected.
pub fn signal_while_connected(sig: Signal) -> (r: Decision)
    ensures
        sig == Signal::Maintenance ==> r == Decision::CompactStore,
        sig == Signal::Terminate ==> r == Decision::EndSession,
{
    match sig {
        Signal::Maintenance => Decision::CompactStore,
        Signal::Terminate => Decision::EndSession,
    }
}

/// What a signal calls for during the back-off between sessions.
pub fn signal_while_disconnected(sig: Signal) -> (r: Decision)
    ensures
        sig == Signal::Maintenance ==> r == Decision::ReconnectNow,
        sig == Signal::Terminate ==> r == Decision::Exit,
{
    match sig {
        Signal::Maintenance => Decision::ReconnectNow,
        Signal::Terminate => Decision::Exit,
    }
}

/// What follows the end of a session: exit once shutdown was asked for,
/// otherwise wait out the back-off and connect again.
pub fn after_session(shutting_down: bool) -> (r: Decision)
    ensures
        shutting_down ==> r == Decision::Exit,
        !shutting_down ==> r == Decision::Backoff,
{
    if shutting_down {
        Decision::Exit
    } else {
        Decision::Backoff
    }
}

} // verus!
