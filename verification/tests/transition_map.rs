//! The operational mode table: `transition` and `output`.

use common::fsm::{output, transition, AssemblyId, FsmAction, FsmEvent, FsmState};
use common::time::Instant;
use common::vehicle_physics::{
    calculate_speed_from_rpm, EXTREME_OPERATION_WARNING_MESSAGE, SPEED_THRESHOLD_WARNING_MESSAGE,
};
use common::vehicle_state::VehicleContext;

fn valid_twin_context() -> VehicleContext {
    VehicleContext::default()
}

fn now() -> Instant {
    Instant::from_nanos(1_000_000_000)
}

#[test]
fn given_driving_when_high_rpm_then_enters_extreme_operation_warning() {
    let now = now();
    let mut ctx = valid_twin_context();
    ctx.powertrain.wheel_rpm.front_left = 5600;
    ctx.powertrain.refresh_speed();

    let result = transition(&FsmState::Driving, &FsmEvent::UpdateRpm(5600), &ctx, now);

    assert!(matches!(
        result.next_state,
        FsmState::ExtremeOperationWarning(_)
    ));
}

#[test]
fn given_driving_when_both_extreme_thresholds_exceeded_then_emits_both_warnings() {
    let now = now();
    let mut ctx = valid_twin_context();
    ctx.powertrain.wheel_rpm.front_left = 5600;
    ctx.powertrain.refresh_speed();

    let result = transition(&FsmState::Driving, &FsmEvent::UpdateRpm(5600), &ctx, now);
    assert!(matches!(
        result.next_state,
        FsmState::ExtremeOperationWarning(_)
    ));

    let actions = output(&FsmState::Driving, &result.next_state, &ctx);
    assert!(actions.contains(&FsmAction::LogWarning(
        SPEED_THRESHOLD_WARNING_MESSAGE.to_string()
    )));
    assert!(actions.contains(&FsmAction::LogWarning(
        EXTREME_OPERATION_WARNING_MESSAGE.to_string()
    )));
}

#[test]
fn given_warning_recovery_when_transition_to_driving_then_stops_buzzer() {
    let old_state = FsmState::ExtremeOperationWarning(now());
    let new_state = FsmState::Driving;
    let ctx = valid_twin_context();

    let actions = output(&old_state, &new_state, &ctx);
    assert_eq!(actions, vec![FsmAction::StopBuzzer]);
}

/// FLCM low-beam status and its silence verdict must not nudge the operational mode.
#[test]
fn given_flcm_observation_or_silence_then_operational_mode_self_loops() {
    let now = now();
    let mut speeding = valid_twin_context();
    speeding.powertrain.wheel_rpm.front_left = 5600;
    speeding.powertrain.refresh_speed();
    let mut stationary = valid_twin_context();
    stationary.powertrain.apply_rpm(0);
    stationary.powertrain.refresh_speed();

    let flcm_events = [
        FsmEvent::LeftLowBeamStatusObserved(true),
        FsmEvent::LeftLowBeamStatusObserved(false),
        FsmEvent::RightLowBeamStatusObserved(true),
        FsmEvent::RightLowBeamStatusObserved(false),
        FsmEvent::AssemblyZoneReady(AssemblyId::Flcm),
    ];
    let states = [
        FsmState::Idle,
        FsmState::Driving,
        FsmState::DrivingDangerously,
        FsmState::ExtremeOperationWarning(now),
    ];

    for state in &states {
        for event in &flcm_events {
            for ctx in [&speeding, &stationary] {
                let result = transition(state, event, ctx, now);
                assert_eq!(
                    &result.next_state, state,
                    "{state:?} + {event:?} must self-loop"
                );
                assert_eq!(result.note, None, "{state:?} + {event:?} must be routine");
            }
        }
    }
}

#[test]
fn given_extreme_warning_when_headlamp_ack_and_stationary_then_idle() {
    let now = now();
    let warning = FsmState::ExtremeOperationWarning(now);
    let mut ctx = valid_twin_context();
    ctx.powertrain.apply_rpm(0);
    ctx.powertrain.refresh_speed();

    let result = transition(&warning, &FsmEvent::FrontHeadlampOffAck, &ctx, now);
    assert_eq!(
        result.next_state,
        FsmState::Idle,
        "standstill must exit ExtremeOperationWarning on any non-PowerOff event"
    );
}

#[test]
fn observed_turn_requests_follow_the_context_guards() {
    let now = now();
    let mut stationary = valid_twin_context();
    stationary.powertrain.apply_rpm(0);
    stationary.powertrain.refresh_speed();
    let mut speeding = valid_twin_context();
    speeding.powertrain.wheel_rpm.front_left = 5600;
    speeding.powertrain.refresh_speed();
    for event in [
        FsmEvent::LeftTurnRequestObserved(true),
        FsmEvent::RightTurnRequestObserved(false),
    ] {
        // At a standstill every driving mode idles, as for any other event.
        for state in [
            FsmState::Driving,
            FsmState::DrivingDangerously,
            FsmState::ExtremeOperationWarning(now),
        ] {
            let result = transition(&state, &event, &stationary, now);
            assert_eq!(result.next_state, FsmState::Idle, "{state:?} + {event:?}");
            assert_eq!(result.note, None);
        }
        // An active warning while driving raises the warning.
        let result = transition(&FsmState::Driving, &event, &speeding, now);
        assert!(matches!(result.next_state, FsmState::ExtremeOperationWarning(_)));
        // Idle only moves on power-off and engine speed.
        let result = transition(&FsmState::Idle, &event, &stationary, now);
        assert_eq!(result.next_state, FsmState::Idle);
    }
}

#[test]
fn road_speed_follows_wheel_rpm_above_the_driving_threshold() {
    assert_eq!(calculate_speed_from_rpm(0), 0);
    assert_eq!(calculate_speed_from_rpm(800), 0);
    assert_eq!(calculate_speed_from_rpm(817), 1);
    assert_eq!(calculate_speed_from_rpm(1300), 29);
    assert_eq!(calculate_speed_from_rpm(3600), 164);
    assert_eq!(calculate_speed_from_rpm(5600), 282);
}
