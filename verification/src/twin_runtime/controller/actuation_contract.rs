//! Actuation commands and feedback: the runtime-agnostic message model between the twin and its
//! actuators.
use vstd::prelude::*;

verus! {

/// Correlation identity for command/feedback round trips, scoped by source and session so
/// that it stays unique across restarts.
#[derive(Debug, Clone, PartialEq, Eq, Hash)]
pub struct CorrelationId {
    pub source_id: String,
    pub session_id: u64,
    pub sequence_no: u64,
}

/// Outbound actuation intent. Headlamp and turn-light commands carry a correlation identity for
/// their acknowledgement; the wiper has no acknowledgement protocol.
#[derive(Debug, Clone, PartialEq, Eq)]
pub enum ActuationCommand {
    SwitchFrontHeadlampOn { correlation_id: CorrelationId },
    SwitchFrontHeadlampOff { correlation_id: CorrelationId },
    /// Start wiping.
    StartWiper,
    /// Stop wiping.
    StopWiper,
    /// Set both turn-light requests at once.
    SetTurnLights { correlation_id: CorrelationId, left_on: bool, right_on: bool },
}

/// Inbound, correlated actuator acknowledgements.
#[derive(Debug, Clone, PartialEq, Eq)]
pub enum ActuationFeedback {
    FrontHeadlampOnAck { correlation_id: CorrelationId },
    FrontHeadlampOffAck { correlation_id: CorrelationId },
    FrontHeadlampOnNack { correlation_id: CorrelationId },
    FrontHeadlampOffNack { correlation_id: CorrelationId },
}

} // verus!
