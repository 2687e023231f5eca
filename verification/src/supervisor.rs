//! The connection supervisor: the state machine that governs the network
//! side of the bridge across the lifetime of the process.
//!
//! The supervisor starts out `Listening`, enters `Bridging` when a connection
//! is accepted, and reaches the per-session terminal state `Closed` when the
//! peer closes in an orderly way or a socket write fails. From `Closed` it
//! always returns to `Listening` for the next connection: no session outcome
//! ends the process. Accept timeouts and accept errors are retried
//! indefinitely.

use vstd::prelude::*;

verus! {

/// Where the network side of the bridge stands.
#[derive(Clone, Copy, Debug, PartialEq, Eq, Structural)]
pub enum SupervisorState {
    /// No connection: waiting to accept one (with an idle timeout).
    Listening,
    /// A connection is up: relaying bytes in both directions.
    Bridging,
    /// The session just ended: its socket is to be discarded.
    Closed,
}

/// What the surrounding loop observed on the network side.
#[derive(Debug)]
pub enum NetEvent {
    /// An accept completed: a peer is connected.
    Accepted,
    /// The accept idle timeout elapsed with no connection.
    AcceptTimedOut,
    /// The accept failed with an error.
    AcceptFailed,
    /// A socket read returned these bytes (at least one).
    ReadData(Vec<u8>),
    /// A socket read returned zero bytes: the peer closed in an orderly way.
    ReadEof,
    /// A socket read failed with an error that is not a closure.
    ReadError,
    /// The uart→net side of the race won: a chunk may be pending to write.
    UartChunk,
    /// A socket write completed.
    WroteOk,
    /// A socket write failed: the socket is assumed broken.
    WriteFailed,
}

/// Which events can be observed in which state: accept outcomes while
/// `Listening`, transport and channel outcomes while `Bridging`; `Closed`
/// consumes whatever is left over while the session is torn down.
pub open spec fn event_fits(s: SupervisorState, e: NetEvent) -> bool {
    match s {
        SupervisorState::Listening => e is Accepted || e is AcceptTimedOut || e is AcceptFailed,
        SupervisorState::Bridging => e is ReadData || e is ReadEof || e is ReadError
            || e is UartChunk || e is WroteOk || e is WriteFailed,
        SupervisorState::Closed => true,
    }
}

/// The supervisor's transition function. Only an accepted connection leaves
/// `Listening`; only an orderly peer closure or a failed socket write leaves
/// `Bridging`; `Closed` always returns to `Listening`.
pub open spec fn supervisor_next(s: SupervisorState, e: NetEvent) -> SupervisorState {
    match s {
        SupervisorState::Listening => if e is Accepted {
            SupervisorState::Bridging
        } else {
            SupervisorState::Listening
        },
        SupervisorState::Bridging => if e is ReadEof || e is WriteFailed {
            SupervisorState::Closed
        } else {
            SupervisorState::Bridging
        },
        SupervisorState::Closed => SupervisorState::Listening,
    }
}

/// One supervisor transition, as executable code.
pub fn supervisor_step(s: SupervisorState, e: &NetEvent) -> (n: SupervisorState)
    ensures
        n == supervisor_next(s, *e),
{
    match s {
        SupervisorState::Listening => match e {
            NetEvent::Accepted => SupervisorState::Bridging,
            _ => SupervisorState::Listening,
        },
        SupervisorState::Bridging => match e {
            NetEvent::ReadEof | NetEvent::WriteFailed => SupervisorState::Closed,
            _ => SupervisorState::Bridging,
        },
        SupervisorState::Closed => SupervisorState::Listening,
    }
}

/// Idle-timeout accept, retried indefinitely: no event observed while
/// `Listening` ever ends a session or the process — in particular an accept
/// timeout or error leaves the supervisor `Listening`, ready to accept
/// again, and only a completed accept starts bridging.
pub proof fn lemma_accept_retry()
    ensures
        forall|e: NetEvent|
            #[trigger] supervisor_next(SupervisorState::Listening, e) is Listening
                || supervisor_next(SupervisorState::Listening, e) is Bridging,
        supervisor_next(SupervisorState::Listening, NetEvent::AcceptTimedOut)
            is Listening,
        supervisor_next(SupervisorState::Listening, NetEvent::AcceptFailed)
            is Listening,
        supervisor_next(SupervisorState::Listening, NetEvent::Accepted) is Bridging,
{
}

/// Idempotent reconnect: an orderly peer closure ends only the session —
/// the supervisor reaches `Closed`, returns to `Listening` on its next step
/// whatever is observed, and a newly accepted peer brings it back to
/// `Bridging`.
pub proof fn lemma_reconnect_after_close()
    ensures
        supervisor_next(SupervisorState::Bridging, NetEvent::ReadEof) is Closed,
        supervisor_next(SupervisorState::Bridging, NetEvent::WriteFailed) is Closed,
        forall|e: NetEvent| #[trigger] supervisor_next(SupervisorState::Closed, e) is Listening,
        supervisor_next(SupervisorState::Listening, NetEvent::Accepted) is Bridging,
{
}

} // verus!
