//! The hazard button through the FSM, and its strict CAN `0x105` codec.

use common::fsm::{transition, DomainAction, FsmEvent, FsmState};
use common::signals::{CanId, ControlSignal, RawCanFrame, ID_HAZARD};
use common::time::Instant;
use common::twin_runtime::detectors::AssemblyTopology;
use common::twin_runtime::twin_turn::{run_to_quiescence, twin_turn};
use common::twin_runtime::ZoneReplies;
use common::vehicle_state::{BcmState, HeadlampState, ObservedBool, VehicleContext};

// Power-on waits for the BCM alone: the lifecycle set is {Bcm}, as the start-up and shutdown
// tests in tests/fsm_preparation.rs and tests/fsm_step.rs fix it (one pending assembly,
// `StartAssemblies([Bcm])`, Idle right after the BCM's readiness). A start-up that also waits
// for the SCCM (a lifecycle set {Sccm, Bcm}, Idle only after both are ready) contradicts those
// tests, so no test here asks for it.

fn now() -> Instant {
    Instant::from_nanos(1_000_000_000)
}

fn standard_frame(id: u16, data: &[u8]) -> RawCanFrame {
    RawCanFrame {
        id: CanId::Standard(id),
        data: data.to_vec(),
    }
}

#[test]
fn hazard_self_loops_in_every_active_mode_before_unrelated_context_guards() {
    let now = now();

    let mut driving_ctx = VehicleContext::default();
    driving_ctx.powertrain.apply_rpm(7_500);
    driving_ctx.powertrain.refresh_speed();

    let mut dangerous_ctx = VehicleContext::default();
    dangerous_ctx.headlamp.state = HeadlampState::On;
    dangerous_ctx.visibility.ambient_lux = u16::MAX;

    let warning_ctx = VehicleContext::default();

    for (state, ctx) in [
        (FsmState::Idle, VehicleContext::default()),
        (FsmState::Driving, driving_ctx),
        (FsmState::DrivingDangerously, dangerous_ctx),
        (FsmState::ExtremeOperationWarning(now), warning_ctx),
    ] {
        let result = transition(&state, &FsmEvent::HazardButtonObserved(true), &ctx, now);
        assert_eq!(result.next_state, state, "hazard moved active mode");
        assert!(result.note.is_none());
    }
}

#[test]
fn observed_hazard_updates_sccm_without_bcm_turn_computation() {
    let now = now();
    for state in [
        FsmState::Idle,
        FsmState::Driving,
        FsmState::DrivingDangerously,
        FsmState::ExtremeOperationWarning(now),
    ] {
        let mut ctx = VehicleContext::default();
        ctx.bcm.state = BcmState::Ready;
        ctx.powertrain.apply_rpm(500);
        ctx.powertrain.refresh_speed();

        let result = twin_turn(&state, &ctx, &FsmEvent::HazardButtonObserved(true), now);
        assert_eq!(result.next_state, state);
        assert_eq!(result.modified_ctx.sccm.hazard_button, ObservedBool::On);
        assert_eq!(
            result.modified_ctx.bcm.left_turn_request,
            ObservedBool::Unknown
        );
        assert_eq!(
            result.modified_ctx.bcm.right_turn_request,
            ObservedBool::Unknown
        );
        assert!(!result
            .actions
            .iter()
            .any(|action| matches!(action, DomainAction::SetTurnLights { .. })));
    }
}

#[test]
fn duplicate_active_hazard_changed_still_records_self_loop_without_action() {
    let mut ctx = VehicleContext::default();
    ctx.sccm.hazard_button_on = true;
    ctx.bcm.state = BcmState::Ready;
    ctx.bcm.left_turn_request_on = true;
    ctx.bcm.right_turn_request_on = true;

    let result = twin_turn(&FsmState::Idle, &ctx, &FsmEvent::HazardButtonChanged(true), now());
    assert_eq!(result.next_state, FsmState::Idle);
    assert!(result.actions.is_empty());
    assert_eq!(
        result.transition_record.event,
        FsmEvent::HazardButtonChanged(true)
    );
}

#[test]
fn phase_one_rpm_entry_stays_driving_with_inactive_headlamp() {
    let result = run_to_quiescence(
        &FsmState::Idle,
        &VehicleContext::default(),
        &FsmEvent::UpdateRpm(1_500),
        now(),
        &ZoneReplies::simulate_locally(),
        AssemblyTopology::ObservedEcus,
    );
    assert_eq!(result.hops.len(), 1);
    assert_eq!(result.final_step().next_state, FsmState::Driving);
}

#[test]
fn hazard_button_encodes_to_exact_can_contract() {
    for (pressed, expected) in [(false, [0, 0]), (true, [1, 0])] {
        let frame = ControlSignal::HazardButton(pressed).to_can_frame();

        assert_eq!(frame.id, CanId::Standard(ID_HAZARD));
        assert_eq!(frame.data, expected);
    }
}

#[test]
fn hazard_button_round_trips() {
    for signal in [
        ControlSignal::HazardButton(false),
        ControlSignal::HazardButton(true),
    ] {
        let frame = signal.to_can_frame();
        assert_eq!(ControlSignal::from_can_frame(&frame), Some(signal));
    }
}

#[test]
fn hazard_decoder_rejects_wrong_standard_id() {
    let frame = standard_frame(ID_HAZARD - 1, &[1, 0]);
    assert_eq!(ControlSignal::from_can_frame(&frame), None);
}

#[test]
fn hazard_decoder_rejects_extended_id() {
    let frame = RawCanFrame {
        id: CanId::Extended(ID_HAZARD as u32),
        data: vec![1, 0],
    };

    assert_eq!(ControlSignal::from_can_frame(&frame), None);
}

#[test]
fn hazard_decoder_rejects_wrong_payload_lengths() {
    for payload in [&[][..], &[1][..], &[1, 0, 0][..]] {
        let frame = standard_frame(ID_HAZARD, payload);
        assert_eq!(ControlSignal::from_can_frame(&frame), None);
    }
}

#[test]
fn hazard_decoder_rejects_unknown_value() {
    let frame = standard_frame(ID_HAZARD, &[2, 0]);
    assert_eq!(ControlSignal::from_can_frame(&frame), None);
}

#[test]
fn hazard_decoder_rejects_nonzero_reserved_byte() {
    let frame = standard_frame(ID_HAZARD, &[1, 1]);
    assert_eq!(ControlSignal::from_can_frame(&frame), None);
}
