//! CAN contracts, ingress projection, actuation planning and the zone runtimes.

use common::digital_twin::ZoneSpontaneousEvent;
use common::domain_types::TwinIngressEvent;
use common::fsm::{DomainAction, FsmEvent};
use common::signals::{
    CanId, ControlSignal, LifecycleCommand, ObservedEcuSignal, RawCanFrame, VssSignal,
    ID_LIFECYCLE, ID_RPM,
};
use common::time::Instant;
use common::twin_runtime::bcm_actor::BcmActorState;
use common::twin_runtime::connectors::{IngressToFsmProjector, ProjectionError};
use common::twin_runtime::controller::{ActuationCommand, DefaultActuationManager};
use common::twin_runtime::flcm_actor::{FlcmActorState, SilenceTimerAction};
use common::twin_runtime::headlamp_actor::{AckTimerAction, HeadlampActorState};
use common::twin_runtime::wiper_actor::WiperActorState;
use common::vehicle_physics::FRONT_HEADLAMP_ON_ACK_WAIT_MILLIS;
use common::vehicle_state::{
    BcmContext, BcmMessage, FlcmContext, FlcmMessage, FrontHeadlampIncompleteCause,
    FrontHeadlampSwitchDirection, HeadlampContext, HeadlampMessage, HeadlampOutcome,
    HeadlampState, ObservationDisposition, ObservedBool, WiperContext, WiperMessage, WiperState,
};

fn frame(id: u16, data: &[u8]) -> RawCanFrame {
    RawCanFrame { id: CanId::Standard(id), data: data.to_vec() }
}

#[test]
fn lifecycle_frames_decode_strictly_and_round_trip() {
    assert_eq!(
        LifecycleCommand::from_can_frame(&frame(ID_LIFECYCLE, &[1, 0, 0, 0, 0, 0, 0, 0])),
        Some(LifecycleCommand::PowerOn)
    );
    assert_eq!(
        LifecycleCommand::from_can_frame(&frame(ID_LIFECYCLE, &[0, 0, 0, 0, 0, 0, 0, 0])),
        Some(LifecycleCommand::PowerOff)
    );
    assert_eq!(LifecycleCommand::from_can_frame(&frame(ID_LIFECYCLE, &[1, 0, 0, 0, 0, 0, 0, 1])), None);
    assert_eq!(LifecycleCommand::from_can_frame(&frame(ID_LIFECYCLE, &[1, 0])), None);
    assert_eq!(LifecycleCommand::from_can_frame(&frame(ID_LIFECYCLE, &[2, 0, 0, 0, 0, 0, 0, 0])), None);
    let extended = RawCanFrame { id: CanId::Extended(0x100), data: vec![1, 0, 0, 0, 0, 0, 0, 0] };
    assert_eq!(LifecycleCommand::from_can_frame(&extended), None);
    for c in [LifecycleCommand::PowerOn, LifecycleCommand::PowerOff] {
        assert_eq!(LifecycleCommand::from_can_frame(&c.to_can_frame()), Some(c));
    }
}

#[test]
fn hazard_and_observed_frames_round_trip() {
    assert_eq!(ControlSignal::from_can_frame(&frame(0x105, &[1, 0])), Some(ControlSignal::HazardButton(true)));
    assert_eq!(ControlSignal::from_can_frame(&frame(0x105, &[1, 1])), None);
    assert_eq!(ControlSignal::HazardButton(false).to_can_frame(), frame(0x105, &[0, 0]));
    for s in [
        ObservedEcuSignal::HazardButton(true),
        ObservedEcuSignal::LeftTurnRequest(false),
        ObservedEcuSignal::RightTurnRequest(true),
    ] {
        assert_eq!(ObservedEcuSignal::from_can_frame(&s.to_can_frame()), Some(s));
    }
    assert_eq!(ObservedEcuSignal::from_can_frame(&frame(0x106, &[0, 0])), Some(ObservedEcuSignal::LeftTurnRequest(false)));
    assert_eq!(ObservedEcuSignal::from_can_frame(&frame(0x108, &[0, 0])), None);
}

#[test]
fn vss_frames_are_big_endian_and_round_trip() {
    assert_eq!(VssSignal::from_can_frame(&frame(ID_RPM, &[0x0B, 0xB8])), Some(VssSignal::EngineRpm(3000)));
    assert_eq!(VssSignal::from_can_frame(&frame(0x101, &[0x27, 0x10, 9])), Some(VssSignal::Speed(10_000)));
    assert_eq!(VssSignal::from_can_frame(&frame(0x104, &[7, 0])), Some(VssSignal::RainDetected(true)));
    assert_eq!(VssSignal::from_can_frame(&frame(ID_RPM, &[0x0B])), None);
    for s in [VssSignal::EngineRpm(65535), VssSignal::AmbientLux(42), VssSignal::Speed(1234), VssSignal::RainDetected(false)] {
        assert_eq!(VssSignal::from_can_frame(&s.to_can_frame()), Some(s));
    }
    assert_eq!(VssSignal::EngineRpm(0x1234).to_can_frame().data, vec![0x12, 0x34]);
}

#[test]
fn ingress_projects_to_fsm_events_or_refuses() {
    let p = IngressToFsmProjector;
    assert_eq!(p.project(TwinIngressEvent::Lifecycle(LifecycleCommand::PowerOn)), Ok(FsmEvent::PowerOn));
    assert_eq!(p.project(TwinIngressEvent::SystemReset), Ok(FsmEvent::PowerOff));
    assert_eq!(p.project(TwinIngressEvent::Telemetry(VssSignal::EngineRpm(900))), Ok(FsmEvent::UpdateRpm(900)));
    assert_eq!(
        p.project(TwinIngressEvent::FrontHeadlampCommandRejected { on_command: false }),
        Ok(FsmEvent::FrontHeadlampActuationIncomplete {
            direction: FrontHeadlampSwitchDirection::Off,
            cause: FrontHeadlampIncompleteCause::NegativeAck,
        })
    );
    assert!(matches!(
        p.project(TwinIngressEvent::Telemetry(VssSignal::AmbientLux(10))),
        Err(ProjectionError::InvalidPayload(_))
    ));
    assert!(p.project(TwinIngressEvent::Telemetry(VssSignal::Speed(100))).is_err());
}

#[test]
fn actuation_policy_correlates_headlamp_and_turn_light_commands() {
    let mut quiet = DefaultActuationManager::default();
    assert_eq!(quiet.plan(&DomainAction::RequestWiperStart), None);
    assert_eq!(quiet.plan(&DomainAction::RequestFrontHeadlampOn), None);

    let mut m = DefaultActuationManager::with_command_channel("car-7".to_string(), 42);
    match m.plan(&DomainAction::RequestFrontHeadlampOn) {
        Some(ActuationCommand::SwitchFrontHeadlampOn { correlation_id }) => {
            assert_eq!(correlation_id.source_id, "car-7");
            assert_eq!(correlation_id.session_id, 42);
            assert_eq!(correlation_id.sequence_no, 1);
        }
        other => panic!("unexpected {other:?}"),
    }
    assert_eq!(m.plan(&DomainAction::RequestWiperStop), Some(ActuationCommand::StopWiper));
    match m.plan(&DomainAction::SetTurnLights { left_on: true, right_on: false }) {
        Some(ActuationCommand::SetTurnLights { correlation_id, left_on, right_on }) => {
            assert_eq!(correlation_id.sequence_no, 2);
            assert!(left_on && !right_on);
        }
        other => panic!("unexpected {other:?}"),
    }
    assert_eq!(m.plan(&DomainAction::StartBuzzer), None);
    assert_eq!(m.plan(&DomainAction::LogWarning("x".to_string())), None);
}

#[test]
fn bcm_runtime_counts_duplicates_and_keeps_the_context() {
    let mut s = BcmActorState::new(BcmContext::default(), false);
    let first = s.on_tell(BcmMessage::LeftTurnRequestObserved(true)).unwrap();
    assert_eq!(first.disposition, ObservationDisposition::Initial);
    let dup = s.on_tell(BcmMessage::LeftTurnRequestObserved(true)).unwrap();
    assert_eq!(dup.disposition, ObservationDisposition::Duplicate { current_duplicates: 1 });
    let changed = s.on_tell(BcmMessage::LeftTurnRequestObserved(false)).unwrap();
    assert_eq!(changed.disposition, ObservationDisposition::Changed { completed_duplicates: 1 });
    assert_eq!(s.ctx.left_turn_request, ObservedBool::Off);
    let mut muted = BcmActorState::new(BcmContext::default(), true);
    assert!(muted.on_tell(BcmMessage::BecomeOn).is_none());
}

#[test]
fn flcm_watchdog_arms_on_reports_and_ignores_stale_deadlines() {
    let mut s = FlcmActorState::new(FlcmContext::default(), false);
    let (_, action) = s.on_tell(FlcmMessage::BecomeOn).unwrap();
    assert_eq!(action, SilenceTimerAction::Cancel);
    let (reply, action) = s.on_tell(FlcmMessage::LeftLowBeamStatusObserved(true)).unwrap();
    assert_eq!(reply.ctx.left_low_beam_status, ObservedBool::On);
    let id = match action {
        SilenceTimerAction::Arm { deadline_id } => deadline_id,
        other => panic!("unexpected {other:?}"),
    };
    assert!(s.on_silence_deadline(id.wrapping_sub(1)).is_none());
    let verdict = s.on_silence_deadline(id).expect("current deadline of a powered module");
    assert!(verdict.ctx.silent);
    assert!(s.ctx.silent);
    let (revived, _) = s.on_tell(FlcmMessage::LeftLowBeamStatusObserved(true)).unwrap();
    assert!(!revived.ctx.silent);
    assert_eq!(revived.disposition, ObservationDisposition::Lifecycle);
}

#[test]
fn headlamp_ack_deadline_reverts_an_unconfirmed_switch() {
    let mut s = HeadlampActorState::new(HeadlampContext { state: HeadlampState::Ready, ack_pending_since: None }, false);
    let (reply, action) = s.on_tell(HeadlampMessage::AmbientLux(10), Instant::from_nanos(5)).unwrap();
    assert_eq!(reply.outcomes, vec![HeadlampOutcome::RequestOn]);
    let id = match action {
        AckTimerAction::Arm { deadline_id, wait_millis } => {
            assert_eq!(wait_millis, FRONT_HEADLAMP_ON_ACK_WAIT_MILLIS);
            deadline_id
        }
        other => panic!("unexpected {other:?}"),
    };
    match s.on_ack_deadline(id, Instant::from_nanos(10)) {
        Some(ZoneSpontaneousEvent::Headlamp { direction, cause, reply }) => {
            assert_eq!(direction, FrontHeadlampSwitchDirection::On);
            assert_eq!(cause, FrontHeadlampIncompleteCause::TimedOut);
            assert_eq!(reply.ctx.state, HeadlampState::Ready);
        }
        other => panic!("unexpected {other:?}"),
    }
    assert!(s.on_ack_deadline(id, Instant::from_nanos(11)).is_none());
}

#[test]
fn headlamp_ack_stops_the_watchdog() {
    let mut s = HeadlampActorState::new(HeadlampContext { state: HeadlampState::Ready, ack_pending_since: None }, false);
    s.on_tell(HeadlampMessage::AmbientLux(10), Instant::from_nanos(5)).unwrap();
    let (reply, action) = s.on_tell(HeadlampMessage::AckOn, Instant::from_nanos(6)).unwrap();
    assert_eq!(reply.ctx.state, HeadlampState::On);
    assert_eq!(action, AckTimerAction::Cancel);
}

#[test]
fn wiper_runtime_applies_and_mutes() {
    let mut s = WiperActorState::new(WiperContext { state: WiperState::Ready }, false);
    let reply = s.on_tell(WiperMessage::Start).unwrap();
    assert_eq!(reply.ctx.state, WiperState::Running);
    assert_eq!(s.ctx.state, WiperState::Running);
    let mut muted = WiperActorState::new(WiperContext::default(), true);
    assert!(muted.on_tell(WiperMessage::BecomeOn).is_none());
    assert_eq!(muted.ctx.state, WiperState::Off);
}
