//! The lifecycle of one connection unit, as a state machine from state and
//! event to next state and action.

use vstd::prelude::*;

verus! {

/// Where a connection unit stands.
#[derive(Clone, Copy, Debug, PartialEq, Eq, Structural)]
pub enum UnitState {
    /// Opening the transport.
    Connecting,
    /// Connected; the partial request is being written.
    HeaderSent,
    /// The partial request is out; the connection is kept open.
    Alive,
    /// The connection is gone; waiting for the pacing delay before the slot
    /// is filled again.
    Failed,
}

/// What the outside world reports to a unit.
#[derive(Clone, Copy, Debug, PartialEq, Eq, Structural)]
pub enum UnitEvent {
    /// The transport was opened.
    Connected,
    /// Opening the transport failed (resolution, refusal, timeout).
    ConnectFailed,
    /// The partial request was written.
    HeaderWritten,
    /// Writing the partial request failed.
    HeaderFailed,
    /// A keep-alive byte was written.
    ByteWritten,
    /// Writing a keep-alive byte failed.
    WriteFailed,
    /// The pacing delay after a failure has passed.
    PaceElapsed,
}

/// What the driver of a unit does next.
#[derive(Clone, Copy, Debug, PartialEq, Eq, Structural)]
pub enum UnitAction {
    /// Write the partial request on the open connection.
    SendHeader,
    /// Wait a randomized interval, then write one random byte.
    KeepAlive,
    /// Release the connection, then wait the pacing delay.
    Close,
    /// Open a new connection for the slot.
    Reconnect,
    /// The event does not belong to the state: nothing to do.
    Ignore,
}

/// The transition table of a unit.
pub open spec fn step_spec(s: UnitState, e: UnitEvent) -> (UnitState, UnitAction) {
    match (s, e) {
        (UnitState::Connecting, UnitEvent::Connected) => (UnitState::HeaderSent, UnitAction::SendHeader),
        (UnitState::Connecting, UnitEvent::ConnectFailed) => (UnitState::Failed, UnitAction::Close),
        (UnitState::HeaderSent, UnitEvent::HeaderWritten) => (UnitState::Alive, UnitAction::KeepAlive),
        (UnitState::HeaderSent, UnitEvent::HeaderFailed) => (UnitState::Failed, UnitAction::Close),
        (UnitState::Alive, UnitEvent::ByteWritten) => (UnitState::Alive, UnitAction::KeepAlive),
        (UnitState::Alive, UnitEvent::WriteFailed) => (UnitState::Failed, UnitAction::Close),
        (UnitState::Failed, UnitEvent::PaceElapsed) => (UnitState::Connecting, UnitAction::Reconnect),
        _ => (s, UnitAction::Ignore),
    }
}

/// Moves a unit on by one event and says what to do next.
pub fn step(s: UnitState, e: UnitEvent) -> (r: (UnitState, UnitAction))
    ensures
        r == step_spec(s, e),
{
    match (s, e) {
        (UnitState::Connecting, UnitEvent::Connected) => (UnitState::HeaderSent, UnitAction::SendHeader),
        (UnitState::Connecting, UnitEvent::ConnectFailed) => (UnitState::Failed, UnitAction::Close),
        (UnitState::HeaderSent, UnitEvent::HeaderWritten) => (UnitState::Alive, UnitAction::KeepAlive),
        (UnitState::HeaderSent, UnitEvent::HeaderFailed) => (UnitState::Failed, UnitAction::Close),
        (UnitState::Alive, UnitEvent::ByteWritten) => (UnitState::Alive, UnitAction::KeepAlive),
        (UnitState::Alive, UnitEvent::WriteFailed) => (UnitState::Failed, UnitAction::Close),
        (UnitState::Failed, UnitEvent::PaceElapsed) => (UnitState::Connecting, UnitAction::Reconnect),
        _ => (s, UnitAction::Ignore),
    }
}

/// A failed unit is replaced exactly once: a write failure on a live unit
/// closes it; from `Failed` the only way on is one reconnect once the pacing
/// delay has passed; and a reconnect never comes from any other state, nor
/// without a close before it.
pub proof fn lemma_failure_leads_to_one_respawn(s: UnitState, e: UnitEvent)
    ensures
        step_spec(UnitState::Alive, UnitEvent::WriteFailed) == (UnitState::Failed, UnitAction::Close),
        s == UnitState::Failed ==> (step_spec(s, e).1 == UnitAction::Reconnect <==> e
            == UnitEvent::PaceElapsed),
        s == UnitState::Failed && e != UnitEvent::PaceElapsed ==> step_spec(s, e) == (
        UnitState::Failed, UnitAction::Ignore),
        step_spec(s, e).1 == UnitAction::Reconnect ==> s == UnitState::Failed && step_spec(s, e).0
            == UnitState::Connecting,
        s != UnitState::Failed && step_spec(s, e).0 == UnitState::Failed ==> step_spec(s, e).1
            == UnitAction::Close,
{
}

/// A unit reaches `Alive` only from `HeaderSent`: a connection that never got
/// its partial request out is never counted.
pub proof fn lemma_alive_only_after_header(s: UnitState, e: UnitEvent)
    ensures
        s != UnitState::Alive && step_spec(s, e).0 == UnitState::Alive ==> s
            == UnitState::HeaderSent && e == UnitEvent::HeaderWritten,
        s == UnitState::Alive && step_spec(s, e).0 != UnitState::Alive ==> e
            == UnitEvent::WriteFailed,
{
}

} // verus!
