//! The ingress boundary: external input projected into the FSM's vocabulary.
use vstd::prelude::*;

use crate::domain_types::TwinIngressEvent;
use crate::fsm::FsmEvent;
use crate::signals::{ControlSignal, LifecycleCommand, ObservedEcuSignal, VssSignal};
use crate::vehicle_state::{FrontHeadlampIncompleteCause, FrontHeadlampSwitchDirection};

verus! {

/// Why an input does not project.
#[derive(Debug, Clone, Copy, PartialEq, Eq)]
pub enum ProjectionError {
    /// The input is well formed but not accepted at this boundary.
    InvalidPayload(&'static str),
}

/// Projects canonical ingress into FSM events.
#[derive(Debug, Default, Clone, Copy)]
pub struct IngressToFsmProjector;

/// The FSM event each accepted input becomes; `None` for inputs the boundary refuses: an
/// observed vehicle speed (speed is derived from the engine), ambient light and rain.
pub open spec fn spec_project_ingress(input: TwinIngressEvent) -> Option<FsmEvent> {
    match input {
        TwinIngressEvent::Lifecycle(LifecycleCommand::PowerOn) => Some(FsmEvent::PowerOn),
        TwinIngressEvent::Lifecycle(LifecycleCommand::PowerOff) => Some(FsmEvent::PowerOff),
        TwinIngressEvent::Control(ControlSignal::HazardButton(p)) => Some(FsmEvent::HazardButtonChanged(p)),
        TwinIngressEvent::ObservedEcu(ObservedEcuSignal::HazardButton(p)) => Some(FsmEvent::HazardButtonObserved(p)),
        TwinIngressEvent::ObservedEcu(ObservedEcuSignal::LeftTurnRequest(p)) => Some(FsmEvent::LeftTurnRequestObserved(p)),
        TwinIngressEvent::ObservedEcu(ObservedEcuSignal::RightTurnRequest(p)) => Some(FsmEvent::RightTurnRequestObserved(p)),
        TwinIngressEvent::Telemetry(VssSignal::EngineRpm(rpm)) => Some(FsmEvent::UpdateRpm(rpm)),
        TwinIngressEvent::Telemetry(_) => None,
        TwinIngressEvent::TimerTick => Some(FsmEvent::TimerTick),
        TwinIngressEvent::SystemReset => Some(FsmEvent::PowerOff),
        TwinIngressEvent::FrontHeadlampCommandConfirmed { on_command } => Some(
            if on_command { FsmEvent::FrontHeadlampOnAck } else { FsmEvent::FrontHeadlampOffAck },
        ),
        TwinIngressEvent::FrontHeadlampCommandRejected { on_command } => Some(
            FsmEvent::FrontHeadlampActuationIncomplete {
                direction: if on_command {
                    FrontHeadlampSwitchDirection::On
                } else {
                    FrontHeadlampSwitchDirection::Off
                },
                cause: FrontHeadlampIncompleteCause::NegativeAck,
            },
        ),
    }
}

/// Why an observed vehicle speed is refused.
pub const SPEED_NOT_WIRED: &'static str = "observed Speed not wired yet; twin derives speed from EngineRpm";

/// Why ambient light is refused.
pub const AMBIENT_LUX_REFUSED: &'static str = "AmbientLux is not accepted by the Phase I ingress boundary";

/// Why rain is refused.
pub const RAIN_REFUSED: &'static str = "RainDetected is not accepted by the Phase I ingress boundary";

/// The text naming why the boundary refuses a telemetry input.
pub open spec fn spec_refusal_text(signal: VssSignal) -> Seq<char> {
    match signal {
        VssSignal::Speed(_) => SPEED_NOT_WIRED@,
        VssSignal::AmbientLux(_) => AMBIENT_LUX_REFUSED@,
        _ => RAIN_REFUSED@,
    }
}

impl IngressToFsmProjector {
    /// Project one input: `Ok` with its FSM event where the boundary accepts it, else an
    /// `InvalidPayload` error naming the refusal.
    pub fn project(&self, input: TwinIngressEvent) -> (r: Result<FsmEvent, ProjectionError>)
        ensures
            match spec_project_ingress(input) {
                Some(e) => r == Ok::<FsmEvent, ProjectionError>(e),
                None => r is Err,
            },
            match input {
                TwinIngressEvent::Telemetry(signal) => spec_project_ingress(input) is None ==> (r matches Err(
                    ProjectionError::InvalidPayload(text),
                ) && text@ == spec_refusal_text(signal)),
                _ => true,
            },
    {
        let fsm = match input {
            TwinIngressEvent::Lifecycle(LifecycleCommand::PowerOn) => FsmEvent::PowerOn,
            TwinIngressEvent::Lifecycle(LifecycleCommand::PowerOff) => FsmEvent::PowerOff,
            TwinIngressEvent::Control(ControlSignal::HazardButton(pressed)) => FsmEvent::HazardButtonChanged(pressed),
            TwinIngressEvent::ObservedEcu(ObservedEcuSignal::HazardButton(pressed)) => FsmEvent::HazardButtonObserved(pressed),
            TwinIngressEvent::ObservedEcu(ObservedEcuSignal::LeftTurnRequest(pressed)) => FsmEvent::LeftTurnRequestObserved(pressed),
            TwinIngressEvent::ObservedEcu(ObservedEcuSignal::RightTurnRequest(pressed)) => FsmEvent::RightTurnRequestObserved(pressed),
            TwinIngressEvent::Telemetry(vss) => match vss {
                VssSignal::Speed(_) => {
                    return Err(ProjectionError::InvalidPayload(SPEED_NOT_WIRED));
                },
                VssSignal::EngineRpm(rpm) => FsmEvent::UpdateRpm(rpm),
                VssSignal::AmbientLux(_) => {
                    return Err(ProjectionError::InvalidPayload(AMBIENT_LUX_REFUSED));
                },
                VssSignal::RainDetected(_) => {
                    return Err(ProjectionError::InvalidPayload(RAIN_REFUSED));
                },
            },
            TwinIngressEvent::TimerTick => FsmEvent::TimerTick,
            TwinIngressEvent::SystemReset => FsmEvent::PowerOff,
            TwinIngressEvent::FrontHeadlampCommandConfirmed { on_command } => if on_command {
                FsmEvent::FrontHeadlampOnAck
            } else {
                FsmEvent::FrontHeadlampOffAck
            },
            TwinIngressEvent::FrontHeadlampCommandRejected { on_command } => FsmEvent::FrontHeadlampActuationIncomplete {
                direction: if on_command {
                    FrontHeadlampSwitchDirection::On
                } else {
                    FrontHeadlampSwitchDirection::Off
                },
                cause: FrontHeadlampIncompleteCause::NegativeAck,
            },
        };
        Ok(fsm)
    }
}

} // verus!
