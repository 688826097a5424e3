//! `PreparingToStart` / `PreparingToStop` and their vocabulary (`StartAssemblies`,
//! `StopAssemblies`): the countdown lives in the state itself.

use common::fsm::{step, transition, AssemblyId, AssemblySet, DomainAction, FsmEvent, FsmState};
use common::time::Instant;
use common::vehicle_state::VehicleContext;

fn ctx() -> VehicleContext {
    VehicleContext::default()
}

fn now() -> Instant {
    Instant::from_nanos(1_000_000_000)
}

fn headlamp_only() -> AssemblySet {
    AssemblySet::new().with(AssemblyId::Headlamp)
}

/// Only the headlamp is left to acknowledge before the transition fires.
fn preparing_to_start_headlamp_only() -> FsmState {
    FsmState::PreparingToStart(headlamp_only())
}

fn preparing_to_stop_headlamp_only() -> FsmState {
    FsmState::PreparingToStop(headlamp_only())
}

#[test]
fn test_power_on_transitions_to_preparing_to_start() {
    let result = transition(&FsmState::Off, &FsmEvent::PowerOn, &ctx(), now());
    assert!(matches!(result.next_state, FsmState::PreparingToStart(_)));
}

#[test]
fn test_assemblies_ready_from_preparing_to_start_transitions_to_idle() {
    let result = transition(
        &preparing_to_start_headlamp_only(),
        &FsmEvent::AssemblyZoneReady(AssemblyId::Headlamp),
        &ctx(),
        now(),
    );
    assert_eq!(result.next_state, FsmState::Idle);
}

#[test]
fn test_power_off_from_idle_transitions_to_preparing_to_stop() {
    let result = transition(&FsmState::Idle, &FsmEvent::PowerOff, &ctx(), now());
    assert!(matches!(result.next_state, FsmState::PreparingToStop(_)));
}

#[test]
fn test_assemblies_stopped_from_preparing_to_stop_transitions_to_off() {
    let result = transition(
        &preparing_to_stop_headlamp_only(),
        &FsmEvent::AssemblyZoneReady(AssemblyId::Headlamp),
        &ctx(),
        now(),
    );
    assert_eq!(result.next_state, FsmState::Off);
}

#[test]
fn test_external_rpm_event_is_no_op_during_preparing_to_start() {
    let result = transition(
        &FsmState::PreparingToStart(AssemblySet::new()),
        &FsmEvent::UpdateRpm(3000),
        &ctx(),
        now(),
    );
    assert!(matches!(result.next_state, FsmState::PreparingToStart(_)));
    assert!(result.note.is_none(), "no RejectedPowerOff note expected");
}

#[test]
fn test_external_lux_event_is_no_op_during_preparing_to_stop() {
    let result = transition(
        &FsmState::PreparingToStop(AssemblySet::new()),
        &FsmEvent::UpdateAmbientLux(10),
        &ctx(),
        now(),
    );
    assert!(matches!(result.next_state, FsmState::PreparingToStop(_)));
    assert!(result.note.is_none(), "no RejectedPowerOff note expected");
}

#[test]
fn test_start_assemblies_action_emitted_on_power_on() {
    let result = step(&FsmState::Off, &ctx(), &FsmEvent::PowerOn, now());
    assert!(matches!(result.next_state, FsmState::PreparingToStart(_)));
    assert!(
        result
            .actions
            .iter()
            .any(|a| matches!(a, DomainAction::StartAssemblies(_))),
        "StartAssemblies must be in the action feed; got: {:?}",
        result.actions
    );
}

#[test]
fn test_stop_assemblies_action_emitted_on_power_off_from_idle() {
    let result = step(&FsmState::Idle, &ctx(), &FsmEvent::PowerOff, now());
    assert!(matches!(result.next_state, FsmState::PreparingToStop(_)));
    assert!(
        result
            .actions
            .iter()
            .any(|a| matches!(a, DomainAction::StopAssemblies(_))),
        "StopAssemblies must be in the action feed; got: {:?}",
        result.actions
    );
}

#[test]
fn given_rains_started_in_idle_when_stepped_then_self_loop_with_no_fsm_actions() {
    let result = step(&FsmState::Idle, &ctx(), &FsmEvent::RainsStarted, now());
    assert_eq!(
        result.next_state,
        FsmState::Idle,
        "RainsStarted must be a self-loop in Idle (zone handles it, FSM state unchanged)"
    );
    assert!(
        result.actions.is_empty(),
        "RainsStarted in Idle must produce no FSM domain actions; got: {:?}",
        result.actions
    );
}

#[test]
fn test_start_assemblies_excluded_from_ledger_record() {
    let result = step(&FsmState::Off, &ctx(), &FsmEvent::PowerOn, now());
    assert!(
        result
            .transition_record
            .actions
            .iter()
            .all(|a| !matches!(a, DomainAction::StartAssemblies(_))),
        "StartAssemblies must NOT appear in the ledger record; got: {:?}",
        result.transition_record.actions
    );
}

#[test]
fn test_stop_assemblies_excluded_from_ledger_record() {
    let result = step(&FsmState::Idle, &ctx(), &FsmEvent::PowerOff, now());
    assert!(
        result
            .transition_record
            .actions
            .iter()
            .all(|a| !matches!(a, DomainAction::StopAssemblies(_))),
        "StopAssemblies must NOT appear in the ledger record; got: {:?}",
        result.transition_record.actions
    );
}

#[test]
fn test_preparing_to_start_carries_assembly_ids() {
    let result = step(&FsmState::Off, &ctx(), &FsmEvent::PowerOn, now());
    let FsmState::PreparingToStart(remaining) = &result.next_state else {
        panic!("expected PreparingToStart, got {:?}", result.next_state);
    };
    assert!(
        remaining.contains(AssemblyId::Bcm),
        "BCM must be in the remaining set"
    );
    assert_eq!(remaining.len(), 1);
}

#[test]
fn test_preparing_to_stop_carries_assembly_ids() {
    let result = step(&FsmState::Idle, &ctx(), &FsmEvent::PowerOff, now());
    let FsmState::PreparingToStop(remaining) = &result.next_state else {
        panic!("expected PreparingToStop, got {:?}", result.next_state);
    };
    assert_eq!(remaining, &AssemblySet::from_ids(&vec![AssemblyId::Bcm]));
}

#[test]
fn test_state_and_action_agree_on_assembly_set() {
    let result = step(&FsmState::Off, &ctx(), &FsmEvent::PowerOn, now());
    let FsmState::PreparingToStart(state_set) = &result.next_state else {
        panic!("expected PreparingToStart");
    };
    let action_list = result
        .actions
        .iter()
        .find_map(|a| {
            if let DomainAction::StartAssemblies(list) = a {
                Some(list.clone())
            } else {
                None
            }
        })
        .expect("StartAssemblies action must be present after PowerOn");
    let action_set = AssemblySet::from_ids(&action_list);
    assert_eq!(
        state_set, &action_set,
        "state set and action payload must agree"
    );
}

#[test]
fn test_assembly_zone_ready_shrinks_state_not_context() {
    let power_on = step(&FsmState::Off, &ctx(), &FsmEvent::PowerOn, now());
    let FsmState::PreparingToStart(after_power_on) = &power_on.next_state else {
        panic!("expected PreparingToStart after PowerOn");
    };
    assert_eq!(
        after_power_on,
        &AssemblySet::from_ids(&vec![AssemblyId::Bcm]),
        "only BCM is pending after PowerOn"
    );

    let bcm_ready = step(
        &power_on.next_state,
        &power_on.modified_ctx,
        &FsmEvent::AssemblyZoneReady(AssemblyId::Bcm),
        now(),
    );
    assert_eq!(bcm_ready.next_state, FsmState::Idle);
}

#[test]
fn test_start_assemblies_action_carries_assembly_list() {
    let result = step(&FsmState::Off, &ctx(), &FsmEvent::PowerOn, now());
    let list = result
        .actions
        .iter()
        .find_map(|a| {
            if let DomainAction::StartAssemblies(list) = a {
                Some(list.clone())
            } else {
                None
            }
        })
        .expect("StartAssemblies must be in actions after PowerOn");
    assert_eq!(list, vec![AssemblyId::Bcm]);
}
