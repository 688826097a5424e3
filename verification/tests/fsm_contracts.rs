//! FSM routing, the twin's identity and state laws, and the wiper actuation vocabulary.

use common::digital_twin::{verify_state_laws, CarSnapshot, DigitalTwinCar, DigitalTwinCarError, ZoneMessage};
use common::fsm::{AssemblyId, AssemblySet, DomainAction, FsmEvent, FsmState};
use common::twin_runtime::controller::ActuationCommand;
use common::twin_runtime::outcome_map::zone_outcomes_to_domain_actions;
use common::twin_runtime::zone_turn::{zone_message_for_event, ZoneOutcome};
use common::vehicle_state::{HeadlampMessage, VehicleContext, WiperOutcome};

fn valid_twin_context() -> VehicleContext {
    VehicleContext::default()
}

#[test]
fn test_zone_message_for_event_returns_none_during_preparing_to_start() {
    let event = FsmEvent::UpdateAmbientLux(10);
    let result = zone_message_for_event(&event, &FsmState::PreparingToStart(AssemblySet::new()));
    assert!(
        result.is_none(),
        "zone_message_for_event must return None during PreparingToStart; got {result:?}"
    );
}

#[test]
fn test_zone_message_for_event_returns_none_during_preparing_to_stop() {
    let event = FsmEvent::UpdateAmbientLux(10);
    let result = zone_message_for_event(&event, &FsmState::PreparingToStop(AssemblySet::new()));
    assert!(
        result.is_none(),
        "zone_message_for_event must return None during PreparingToStop; got {result:?}"
    );
}

#[test]
fn test_zone_message_for_event_returns_some_during_idle() {
    let event = FsmEvent::UpdateAmbientLux(10);
    let result = zone_message_for_event(&event, &FsmState::Idle);
    match result {
        Some((AssemblyId::Headlamp, ZoneMessage::Headlamp(HeadlampMessage::AmbientLux(10)))) => {}
        other => panic!(
            "zone_message_for_event must return Some((Headlamp, Headlamp(AmbientLux(10)))) when Idle; got {other:?}"
        ),
    }
}

#[test]
fn test_blank_identity_is_unconstructable() {
    assert_eq!(
        DigitalTwinCar::new("", FsmState::Off, valid_twin_context()).unwrap_err(),
        DigitalTwinCarError::BlankIdentity
    );
    assert_eq!(
        DigitalTwinCar::new("   ", FsmState::Off, valid_twin_context()).unwrap_err(),
        DigitalTwinCarError::BlankIdentity
    );

    let car = DigitalTwinCar::new("  VC-7  ", FsmState::Off, valid_twin_context())
        .expect("non-blank identity");
    assert_eq!(car.identity(), "VC-7");
}

#[test]
fn test_state_laws_flag_an_illegal_cut() {
    let illegal_ctx = {
        let mut c = valid_twin_context();
        c.powertrain.wheel_rpm.front_left = 100;
        c
    };

    let violations = verify_state_laws(&FsmState::Driving, &illegal_ctx)
        .expect_err("Driving with sub-stall RPM must breach a law");
    assert_eq!(violations.len(), 1);
    assert_eq!(violations[0].law, "rpm_above_threshold");
}

#[test]
fn given_request_wiper_actions_when_compared_then_distinct() {
    assert_ne!(
        format!("{:?}", DomainAction::RequestWiperStart),
        format!("{:?}", DomainAction::RequestWiperStop),
        "RequestWiperStart and RequestWiperStop must be distinct variants"
    );
}

#[test]
fn given_start_wiping_outcome_when_mapped_then_request_wiper_start() {
    let outcomes = vec![ZoneOutcome::Wiper(WiperOutcome::StartWiping)];
    let actions = zone_outcomes_to_domain_actions(outcomes);
    assert_eq!(actions, vec![DomainAction::RequestWiperStart]);
}

#[test]
fn given_stop_wiping_outcome_when_mapped_then_request_wiper_stop() {
    let outcomes = vec![ZoneOutcome::Wiper(WiperOutcome::StopWiping)];
    let actions = zone_outcomes_to_domain_actions(outcomes);
    assert_eq!(actions, vec![DomainAction::RequestWiperStop]);
}

#[test]
fn given_wiper_log_warning_outcome_when_mapped_then_domain_log_warning() {
    let msg = "wiper unresponsive".to_string();
    let outcomes = vec![ZoneOutcome::Wiper(WiperOutcome::LogWarning(msg.clone()))];
    let actions = zone_outcomes_to_domain_actions(outcomes);
    assert_eq!(actions, vec![DomainAction::LogWarning(msg)]);
}

#[test]
fn given_wiper_actuation_commands_when_compared_then_distinct() {
    assert_ne!(
        format!("{:?}", ActuationCommand::StartWiper),
        format!("{:?}", ActuationCommand::StopWiper),
        "StartWiper and StopWiper must be distinct variants"
    );
}

#[test]
fn invariant_check_reports_each_breached_law_joined() {
    let mut ctx = valid_twin_context();
    ctx.powertrain.wheel_rpm.front_left = 100;
    ctx.powertrain.speed_kph = 50;
    let car = DigitalTwinCar::new("VC-8", FsmState::Driving, ctx).expect("non-blank identity");
    let expected = "rpm_above_threshold: driving mode with wheels at or below the driving threshold; \
                    speed_matches_wheels: road speed differs from the speed the wheels give";
    assert_eq!(car.verify_all_invariants(), Err(expected.to_string()));
    let snapshot = CarSnapshot::new(car.clone(), 4);
    assert_eq!(snapshot.verify_all_invariants(), car.verify_all_invariants());

    let mut unhealthy = valid_twin_context();
    unhealthy.health.fuel_level_pct = 0;
    let car = DigitalTwinCar::new("VC-9", FsmState::Idle, unhealthy).expect("non-blank identity");
    assert!(!unhealthy.is_healthy());
    assert_eq!(
        car.verify_all_invariants(),
        Err("vehicle context failed health invariants".to_string())
    );
    assert_eq!(
        DigitalTwinCar::new("VC-10", FsmState::Idle, valid_twin_context())
            .expect("non-blank identity")
            .verify_all_invariants(),
        Ok(())
    );
}
