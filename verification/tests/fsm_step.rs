//! The FSM step contract, driven through `twin_turn`.

use common::digital_twin::{verify_state_laws, DigitalTwinCar};
use common::fsm::{AssemblyId, DomainAction, FsmEvent, FsmState};
use common::time::Instant;
use common::twin_runtime::twin_turn::twin_turn;
use common::vehicle_physics::{EXTREME_OPERATION_WARNING_MESSAGE, SPEED_THRESHOLD_WARNING_MESSAGE};
use common::vehicle_state::VehicleContext;

fn valid_twin_context() -> VehicleContext {
    VehicleContext::default()
}

fn now() -> Instant {
    Instant::from_nanos(1_000_000_000)
}

#[test]
fn test_step_derive_ctx_and_warning_flow() {
    let mut current_ctx = valid_twin_context();
    let mut current_state = FsmState::Idle;

    let warmup = twin_turn(&current_state, &current_ctx, &FsmEvent::UpdateRpm(1200), now());
    assert_eq!(warmup.next_state, FsmState::Driving);
    assert_eq!(warmup.modified_ctx.powertrain.wheel_rpm.front_left, 1200);

    current_state = warmup.next_state;
    current_ctx = warmup.modified_ctx;

    let warning = twin_turn(&current_state, &current_ctx, &FsmEvent::UpdateRpm(5600), now());
    assert_eq!(warning.modified_ctx.powertrain.wheel_rpm.front_left, 5600);
    assert!(matches!(
        warning.next_state,
        FsmState::ExtremeOperationWarning(_)
    ));
    assert!(warning.actions.contains(&DomainAction::StartBuzzer));
    assert!(warning.actions.contains(&DomainAction::LogWarning(
        SPEED_THRESHOLD_WARNING_MESSAGE.to_string()
    )));
    assert!(warning.actions.contains(&DomainAction::LogWarning(
        EXTREME_OPERATION_WARNING_MESSAGE.to_string()
    )));
}

#[test]
fn test_transition_record_carries_intended_actions_without_assembly_signals() {
    let result = twin_turn(&FsmState::Off, &valid_twin_context(), &FsmEvent::PowerOn, now());

    assert!(
        result
            .actions
            .iter()
            .any(|a| matches!(a, DomainAction::StartAssemblies(_))),
        "StartAssemblies must be in the execution feed; got: {:?}",
        result.actions
    );

    let recorded = &result.transition_record.actions;
    assert!(
        recorded
            .iter()
            .all(|a| !matches!(a, DomainAction::StartAssemblies(_))),
        "StartAssemblies must NOT appear in the ledger record; got: {:?}",
        recorded
    );

    let expected: Vec<DomainAction> = result
        .actions
        .iter()
        .filter(|a| {
            !matches!(
                a,
                DomainAction::StartAssemblies(_) | DomainAction::StopAssemblies(_)
            )
        })
        .cloned()
        .collect();
    assert_eq!(recorded, &expected);
}

#[test]
fn test_step_high_speed_below_rpm_threshold_still_warns_on_speed() {
    let current_ctx = valid_twin_context();
    let current_state = FsmState::Driving;

    let result = twin_turn(&current_state, &current_ctx, &FsmEvent::UpdateRpm(3600), now());
    assert_eq!(result.modified_ctx.powertrain.wheel_rpm.front_left, 3600);
    assert!(matches!(
        result.next_state,
        FsmState::ExtremeOperationWarning(_)
    ));
    assert!(result.actions.contains(&DomainAction::LogWarning(
        SPEED_THRESHOLD_WARNING_MESSAGE.to_string()
    )));
    assert!(!result.actions.contains(&DomainAction::LogWarning(
        EXTREME_OPERATION_WARNING_MESSAGE.to_string()
    )));
}

#[test]
fn test_step_standard_commute_flow() {
    let mut car = DigitalTwinCar::new("NASHIK-VC-001", FsmState::Off, valid_twin_context())
        .expect("non-blank identity");

    let sequence: &[(FsmEvent, fn(&FsmState) -> bool)] = &[
        (FsmEvent::PowerOn, |s| matches!(s, FsmState::PreparingToStart(_))),
        (FsmEvent::AssemblyZoneReady(AssemblyId::Bcm), |s| {
            matches!(s, FsmState::Idle)
        }),
        (FsmEvent::UpdateRpm(1500), |s| matches!(s, FsmState::Driving)),
        (FsmEvent::UpdateRpm(1300), |s| matches!(s, FsmState::Driving)),
        (FsmEvent::UpdateRpm(0), |s| matches!(s, FsmState::Idle)),
        (FsmEvent::PowerOff, |s| matches!(s, FsmState::PreparingToStop(_))),
        (FsmEvent::AssemblyZoneReady(AssemblyId::Bcm), |s| {
            matches!(s, FsmState::Off)
        }),
    ];

    for (event, check) in sequence {
        let result = twin_turn(car.current_state(), car.context(), event, now());
        car.apply_step(result.next_state, result.modified_ctx);
        assert!(
            check(car.current_state()),
            "event={event:?}, got {:?}",
            car.current_state()
        );
    }
}

#[test]
fn test_state_laws_hold_over_a_legal_journey_and_records_carry_intents() {
    let mut state = FsmState::Off;
    let mut ctx = valid_twin_context();
    let mut reached_warning = false;

    for event in [
        FsmEvent::PowerOn,
        FsmEvent::AssemblyZoneReady(AssemblyId::Bcm),
        FsmEvent::UpdateRpm(1500),
        FsmEvent::UpdateRpm(5600),
    ] {
        let result = twin_turn(&state, &ctx, &event, now());

        assert!(
            verify_state_laws(&result.next_state, &result.modified_ctx).is_ok(),
            "legal journey must not breach any state law at event={event:?}"
        );

        if matches!(result.next_state, FsmState::ExtremeOperationWarning(_)) {
            assert!(result
                .transition_record
                .actions
                .contains(&DomainAction::StartBuzzer));
            reached_warning = true;
        }

        state = result.next_state;
        ctx = result.modified_ctx;
    }

    assert!(
        reached_warning,
        "journey should reach ExtremeOperationWarning"
    );
}

#[test]
fn test_step_warning_recovery_on_tick_uses_passed_time() {
    let base: u64 = 1_000_000_000;
    let ctx = {
        let mut c = valid_twin_context();
        c.powertrain.wheel_rpm.front_left = 1000;
        c.powertrain.refresh_speed();
        c
    };

    let warning_state = FsmState::ExtremeOperationWarning(Instant::from_nanos(base));

    let early = twin_turn(
        &warning_state,
        &ctx,
        &FsmEvent::TimerTick,
        Instant::from_nanos(base + 2_000_000_000),
    );
    assert!(matches!(
        early.next_state,
        FsmState::ExtremeOperationWarning(_)
    ));

    let recovered = twin_turn(
        &warning_state,
        &ctx,
        &FsmEvent::TimerTick,
        Instant::from_nanos(base + 6_000_000_000),
    );
    assert_eq!(recovered.next_state, FsmState::Driving);
    assert!(recovered.actions.contains(&DomainAction::StopBuzzer));
}

#[test]
fn power_off_while_driving_requires_idle_and_preserves_state() {
    let mut ctx = VehicleContext::default();
    ctx.powertrain.apply_rpm(1200);
    ctx.powertrain.refresh_speed();

    let result = twin_turn(&FsmState::Driving, &ctx, &FsmEvent::PowerOff, now());

    assert_eq!(result.next_state, FsmState::Driving);
    assert!(result.actions.contains(&DomainAction::LogWarning(
        "[REJECTED]: vehicle must be Idle before PowerOff; current state is Driving".to_string()
    )));
}

#[test]
fn test_step_standard_commute_uses_state_embedded_assemblies() {
    let result = twin_turn(&FsmState::Off, &valid_twin_context(), &FsmEvent::PowerOn, now());
    assert!(
        matches!(&result.next_state, FsmState::PreparingToStart(s) if !s.is_empty()),
        "PreparingToStart must embed a non-empty assembly set; got {:?}",
        result.next_state
    );
}
