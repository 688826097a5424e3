//! The canonical vocabulary of external input to the twin.
use vstd::prelude::*;

use crate::signals::{ControlSignal, LifecycleCommand, ObservedEcuSignal, VssSignal};

verus! {

/// One external input, already decoded from its carrier.
#[derive(Debug, Clone, Copy, PartialEq, Eq)]
pub enum TwinIngressEvent {
    Lifecycle(LifecycleCommand),
    Control(ControlSignal),
    ObservedEcu(ObservedEcuSignal),
    Telemetry(VssSignal),
    TimerTick,
    /// A reset of the whole system: the twin shuts down.
    SystemReset,
    /// The actuator confirmed a front headlamp switch (`on_command` tells its direction).
    FrontHeadlampCommandConfirmed { on_command: bool },
    /// The actuator rejected a front headlamp switch.
    FrontHeadlampCommandRejected { on_command: bool },
}

} // verus!
