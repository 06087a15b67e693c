//! The connection supervisor's decision table.
//!
//! A supervisor owns one accepted connection and repeatedly accepts the
//! next stream the peer opens. The transport work stays with the caller;
//! this module fixes what each accept outcome means: a new stream is
//! dispatched to its own independently scheduled exchange, a connection the
//! peer closed at the application level ends the supervisor normally, and
//! any other accept failure ends it as a connection-level error. A failure
//! inside one exchange is caught at that exchange's boundary and never
//! reaches the supervisor or another stream.

use vstd::prelude::*;

verus! {

/// What accepting the next stream on a connection produced.
pub enum AcceptEvent {
    /// The peer opened a new bidirectional stream.
    Opened,
    /// The peer closed the connection at the application level.
    ClosedByPeer,
    /// Accepting failed for any other transport reason.
    Failed,
}

/// What the supervisor does with an accept outcome.
pub enum SupervisorAction {
    /// Hand the new stream to its own exchange and accept the next one at
    /// once, without waiting for the exchange to finish.
    Dispatch,
    /// Stop accepting and end without surfacing a failure.
    FinishNormally,
    /// Log the failure and end; the transport tears the connection down.
    FailConnection,
}

/// Decides the supervisor's next action for one accept outcome: dispatch
/// each opened stream, treat a peer's clean close as normal termination,
/// and treat every other failure as fatal to this connection alone.
pub fn supervisor_step(event: &AcceptEvent) -> (r: SupervisorAction)
    ensures
        (match event {
            AcceptEvent::Opened => r is Dispatch,
            AcceptEvent::ClosedByPeer => r is FinishNormally,
            AcceptEvent::Failed => r is FailConnection,
        }),
{
    match event {
        AcceptEvent::Opened => SupervisorAction::Dispatch,
        AcceptEvent::ClosedByPeer => SupervisorAction::FinishNormally,
        AcceptEvent::Failed => SupervisorAction::FailConnection,
    }
}

} // verus!
