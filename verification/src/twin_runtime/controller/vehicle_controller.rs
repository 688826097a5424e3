//! Errors of the controller's public doorway.
use vstd::prelude::*;

verus! {

/// Why a request through the controller failed.
#[derive(Debug, Clone, PartialEq, Eq)]
pub enum VehicleControllerError {
    /// The input did not project into the FSM's vocabulary.
    Projection(String),
    /// The twin's mailbox refused the message.
    Messaging(String),
    /// No snapshot arrived in time.
    Timeout,
    /// The twin dropped the reply.
    ReplyDropped,
}

} // verus!
