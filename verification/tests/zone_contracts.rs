//! Zone state machines: SCCM, BCM, FLCM and wiper contexts, and observation streaks.

use common::fsm::{AssemblyId, DomainAction, FsmEvent, FsmState, AssemblySet};
use common::digital_twin::ZoneMessage;
use common::twin_runtime::zone_turn::zone_message_for_event;
use common::twin_runtime::ObservationStreak;
use common::vehicle_state::{
    BcmContext, BcmMessage, BcmOutcome, BcmState, FlcmContext, FlcmMessage,
    ObservationDisposition, ObservedBool, SccmContext, SccmMessage, WiperContext, WiperMessage,
    WiperOutcome, WiperState,
};

#[test]
fn bcm_starts_ready_and_shutdown_clears_turn_requests() {
    let started = BcmContext::default().on_receiving_message(BcmMessage::BecomeOn);
    assert_eq!(started.ctx.state, BcmState::Ready);
    assert!(!started.ctx.left_turn_request_on);
    assert!(!started.ctx.right_turn_request_on);

    let hazards_on = started
        .ctx
        .on_receiving_message(BcmMessage::HazardButtonChanged(true));
    let stopped = hazards_on.ctx.on_receiving_message(BcmMessage::BecomeOff);
    assert_eq!(stopped.ctx.state, BcmState::Off);
    assert!(!stopped.ctx.left_turn_request_on);
    assert!(!stopped.ctx.right_turn_request_on);
}

#[test]
fn bcm_hazard_button_changed_is_a_noop_without_turn_light_outcomes() {
    let off = BcmContext::default().on_receiving_message(BcmMessage::HazardButtonChanged(true));
    assert_eq!(off.ctx, BcmContext::default());
    assert!(off.outcomes.is_empty());

    let ready = BcmContext::default()
        .on_receiving_message(BcmMessage::BecomeOn)
        .ctx;
    let changed = ready.on_receiving_message(BcmMessage::HazardButtonChanged(true));
    assert!(!changed.ctx.left_turn_request_on);
    assert!(!changed.ctx.right_turn_request_on);
    assert!(!changed
        .outcomes
        .iter()
        .any(|outcome| matches!(outcome, BcmOutcome::TurnLightsChanged { .. })));

    let duplicate = changed
        .ctx
        .on_receiving_message(BcmMessage::HazardButtonChanged(true));
    assert!(duplicate.outcomes.is_empty());

    let cleared = duplicate
        .ctx
        .on_receiving_message(BcmMessage::HazardButtonChanged(false));
    assert!(cleared.outcomes.is_empty());
}

#[test]
fn bcm_default_turn_requests_are_unknown() {
    let ctx = BcmContext::default();
    assert_eq!(ctx.left_turn_request, ObservedBool::Unknown);
    assert_eq!(ctx.right_turn_request, ObservedBool::Unknown);
}

#[test]
fn bcm_first_false_left_observation_is_initial_not_duplicate() {
    let ready = BcmContext::default()
        .on_receiving_message(BcmMessage::BecomeOn)
        .ctx;
    let message = BcmMessage::LeftTurnRequestObserved(false);
    let disposition = ready.observation_disposition(message);
    let reply = ready.on_receiving_message(message);

    assert_eq!(disposition, ObservationDisposition::Initial);
    assert_eq!(reply.ctx.left_turn_request, ObservedBool::Off);
    assert!(!reply.ctx.left_turn_request_on);
    assert!(reply.outcomes.is_empty());
}

#[test]
fn bcm_repeated_equal_left_value_is_duplicate() {
    let first =
        BcmContext::default().on_receiving_message(BcmMessage::LeftTurnRequestObserved(false));
    let message = BcmMessage::LeftTurnRequestObserved(false);
    let disposition = first.ctx.observation_disposition(message);
    let duplicate = first.ctx.on_receiving_message(message);

    assert!(matches!(disposition, ObservationDisposition::Duplicate { .. }));
    assert_eq!(duplicate.ctx.left_turn_request, ObservedBool::Off);
    assert!(duplicate.outcomes.is_empty());
}

#[test]
fn bcm_complementary_right_value_is_changed() {
    let first =
        BcmContext::default().on_receiving_message(BcmMessage::RightTurnRequestObserved(false));
    let message = BcmMessage::RightTurnRequestObserved(true);
    let disposition = first.ctx.observation_disposition(message);
    let changed = first.ctx.on_receiving_message(message);

    assert!(matches!(disposition, ObservationDisposition::Changed { .. }));
    assert_eq!(changed.ctx.right_turn_request, ObservedBool::On);
    assert!(changed.ctx.right_turn_request_on);
    assert!(changed.outcomes.is_empty());
}

#[test]
fn bcm_updates_left_and_right_independently() {
    let left =
        BcmContext::default().on_receiving_message(BcmMessage::LeftTurnRequestObserved(true));
    assert_eq!(left.ctx.left_turn_request, ObservedBool::On);
    assert!(left.ctx.left_turn_request_on);
    assert_eq!(left.ctx.right_turn_request, ObservedBool::Unknown);
    assert!(!left.ctx.right_turn_request_on);

    let both = left
        .ctx
        .on_receiving_message(BcmMessage::RightTurnRequestObserved(false));
    assert_eq!(both.ctx.left_turn_request, ObservedBool::On);
    assert_eq!(both.ctx.right_turn_request, ObservedBool::Off);

    let left_again = both
        .ctx
        .on_receiving_message(BcmMessage::LeftTurnRequestObserved(false));
    assert_eq!(left_again.ctx.left_turn_request, ObservedBool::Off);
    assert_eq!(left_again.ctx.right_turn_request, ObservedBool::Off);
}

#[test]
fn bcm_observation_creates_no_turn_light_outcome_or_domain_action() {
    let reply = BcmContext::default()
        .on_receiving_message(BcmMessage::BecomeOn)
        .ctx
        .on_receiving_message(BcmMessage::LeftTurnRequestObserved(true));

    assert!(!reply
        .outcomes
        .iter()
        .any(|outcome| matches!(outcome, BcmOutcome::TurnLightsChanged { .. })));
    let no_actions: &[DomainAction] = &[];
    assert!(!no_actions
        .iter()
        .any(|action| matches!(action, DomainAction::SetTurnLights { .. })));
}

#[test]
fn bcm_become_off_restores_readiness_without_fabricating_observed_values() {
    let observed = BcmContext::default()
        .on_receiving_message(BcmMessage::BecomeOn)
        .ctx
        .on_receiving_message(BcmMessage::LeftTurnRequestObserved(true))
        .ctx
        .on_receiving_message(BcmMessage::RightTurnRequestObserved(false));
    assert_eq!(observed.ctx.left_turn_request, ObservedBool::On);
    assert_eq!(observed.ctx.right_turn_request, ObservedBool::Off);

    let stopped = observed.ctx.on_receiving_message(BcmMessage::BecomeOff);
    assert_eq!(stopped.ctx.state, BcmState::Off);
    assert_eq!(stopped.ctx.left_turn_request, ObservedBool::On);
    assert_eq!(stopped.ctx.right_turn_request, ObservedBool::Off);
    assert_eq!(
        stopped.ctx.observation_disposition(BcmMessage::BecomeOff),
        ObservationDisposition::Lifecycle
    );

    let never_observed = BcmContext::default().on_receiving_message(BcmMessage::BecomeOff);
    assert_eq!(never_observed.ctx.state, BcmState::Off);
    assert_eq!(never_observed.ctx.left_turn_request, ObservedBool::Unknown);
    assert_eq!(never_observed.ctx.right_turn_request, ObservedBool::Unknown);
}

#[test]
fn flcm_defaults_to_unknown_and_not_silent() {
    let ctx = FlcmContext::default();

    assert_eq!(ctx.left_low_beam_status, ObservedBool::Unknown);
    assert_eq!(ctx.right_low_beam_status, ObservedBool::Unknown);
    assert!(!ctx.silent);
}

#[test]
fn flcm_ok_observations_set_each_side_on_independently() {
    let left =
        FlcmContext::default().on_receiving_message(FlcmMessage::LeftLowBeamStatusObserved(true));
    assert_eq!(left.disposition, ObservationDisposition::Initial);
    assert_eq!(left.ctx.left_low_beam_status, ObservedBool::On);
    assert_eq!(left.ctx.right_low_beam_status, ObservedBool::Unknown);

    let both = left
        .ctx
        .on_receiving_message(FlcmMessage::RightLowBeamStatusObserved(true));
    assert_eq!(both.ctx.left_low_beam_status, ObservedBool::On);
    assert_eq!(both.ctx.right_low_beam_status, ObservedBool::On);
}

#[test]
fn flcm_fail_observation_sets_status_off() {
    let reply =
        FlcmContext::default().on_receiving_message(FlcmMessage::LeftLowBeamStatusObserved(false));

    assert_eq!(reply.ctx.left_low_beam_status, ObservedBool::Off);
    assert!(reply.ctx.has_fault());
}

#[test]
fn flcm_is_confirmed_healthy_only_when_both_sides_are_ok_and_not_silent() {
    let left_only = FlcmContext::default()
        .on_receiving_message(FlcmMessage::LeftLowBeamStatusObserved(true))
        .ctx;
    assert!(!left_only.is_confirmed_healthy());

    let both = left_only
        .on_receiving_message(FlcmMessage::RightLowBeamStatusObserved(true))
        .ctx;
    assert!(both.is_confirmed_healthy());
    assert!(!both.with_silent(true).is_confirmed_healthy());
}

#[test]
fn flcm_silence_helper_marks_fault_without_changing_statuses() {
    let healthy = FlcmContext::default()
        .on_receiving_message(FlcmMessage::LeftLowBeamStatusObserved(true))
        .ctx
        .on_receiving_message(FlcmMessage::RightLowBeamStatusObserved(true))
        .ctx;
    let silent = healthy.with_silent(true);

    assert_eq!(silent.left_low_beam_status, ObservedBool::On);
    assert_eq!(silent.right_low_beam_status, ObservedBool::On);
    assert!(silent.silent);
    assert!(silent.has_fault());
}

#[test]
fn flcm_become_on_and_off_reset_observation_state() {
    let faulted = FlcmContext::default()
        .on_receiving_message(FlcmMessage::LeftLowBeamStatusObserved(false))
        .ctx
        .with_silent(true);

    for message in [FlcmMessage::BecomeOn, FlcmMessage::BecomeOff] {
        let reset = faulted.on_receiving_message(message);
        assert_eq!(reset.disposition, ObservationDisposition::Lifecycle);
        assert_eq!(reset.ctx, FlcmContext::default());
    }
}

#[test]
fn sccm_default_hazard_is_unknown() {
    assert_eq!(SccmContext::default().hazard_button, ObservedBool::Unknown);
}

#[test]
fn sccm_first_false_observation_is_initial_not_duplicate() {
    let reply =
        SccmContext::default().on_receiving_message(SccmMessage::HazardButtonObserved(false));

    assert_eq!(reply.disposition, ObservationDisposition::Initial);
    assert_eq!(reply.ctx.hazard_button, ObservedBool::Off);
    assert!(!reply.ctx.hazard_button_on);
}

#[test]
fn sccm_repeated_equal_value_is_duplicate() {
    let first =
        SccmContext::default().on_receiving_message(SccmMessage::HazardButtonObserved(false));
    let duplicate = first
        .ctx
        .on_receiving_message(SccmMessage::HazardButtonObserved(false));

    assert!(matches!(duplicate.disposition, ObservationDisposition::Duplicate { .. }));
    assert_eq!(duplicate.ctx.hazard_button, ObservedBool::Off);
}

#[test]
fn sccm_complementary_value_is_changed() {
    let first =
        SccmContext::default().on_receiving_message(SccmMessage::HazardButtonObserved(false));
    let changed = first
        .ctx
        .on_receiving_message(SccmMessage::HazardButtonObserved(true));

    assert!(matches!(changed.disposition, ObservationDisposition::Changed { .. }));
    assert_eq!(changed.ctx.hazard_button, ObservedBool::On);
    assert!(changed.ctx.hazard_button_on);
}

#[test]
fn sccm_observation_does_not_return_a_domain_action() {
    let _reply: common::vehicle_state::SccmZoneReply =
        SccmContext::default().on_receiving_message(SccmMessage::HazardButtonObserved(true));
    let no_actions: &[DomainAction] = &[];
    assert!(no_actions.is_empty());
}

#[test]
fn sccm_default_hazard_mode_is_off() {
    assert_eq!(SccmContext::default().hazard_mode, ObservedBool::Off);
}

#[test]
fn sccm_rising_edge_toggles_mode_on_and_pulse_off_leaves_mode_on() {
    let on = SccmContext::default().on_receiving_message(SccmMessage::HazardButtonObserved(true));
    assert_eq!(on.ctx.hazard_button, ObservedBool::On);
    assert_eq!(on.ctx.hazard_mode, ObservedBool::On);

    let wire_off = on
        .ctx
        .on_receiving_message(SccmMessage::HazardButtonObserved(false));
    assert_eq!(wire_off.ctx.hazard_button, ObservedBool::Off);
    assert_eq!(wire_off.ctx.hazard_mode, ObservedBool::On);
}

#[test]
fn sccm_second_rising_edge_toggles_mode_off() {
    let after_pulse = SccmContext::default()
        .on_receiving_message(SccmMessage::HazardButtonObserved(true))
        .ctx
        .on_receiving_message(SccmMessage::HazardButtonObserved(false));
    let second = after_pulse
        .ctx
        .on_receiving_message(SccmMessage::HazardButtonObserved(true));
    assert_eq!(second.ctx.hazard_mode, ObservedBool::Off);
    assert_eq!(second.ctx.hazard_button, ObservedBool::On);
}

#[test]
fn sccm_become_on_resets_mode_off_and_button_unknown() {
    let armed = SccmContext::default()
        .on_receiving_message(SccmMessage::HazardButtonObserved(true))
        .ctx;
    let reset = armed.on_receiving_message(SccmMessage::BecomeOn);
    assert_eq!(reset.ctx.hazard_mode, ObservedBool::Off);
    assert_eq!(reset.ctx.hazard_button, ObservedBool::Unknown);
    assert_eq!(reset.disposition, ObservationDisposition::Lifecycle);
}

#[test]
fn unknown_then_false_is_initial_with_zero_duplicates() {
    let mut streak = ObservationStreak::default();

    let disposition = streak.observe(false);

    assert_eq!(disposition, ObservationDisposition::Initial);
    assert_eq!(streak.pending_summary(), Some((false, 0)));
}

#[test]
fn repeated_false_increments_the_same_streak() {
    let mut streak = ObservationStreak::default();
    assert_eq!(streak.observe(false), ObservationDisposition::Initial);

    assert_eq!(
        streak.observe(false),
        ObservationDisposition::Duplicate { current_duplicates: 1 }
    );
    assert_eq!(
        streak.observe(false),
        ObservationDisposition::Duplicate { current_duplicates: 2 }
    );
    assert_eq!(streak.pending_summary(), Some((false, 2)));
}

#[test]
fn complementary_value_reports_completed_duplicates_and_resets_count() {
    let mut streak = ObservationStreak::default();
    streak.observe(false);
    streak.observe(false);
    streak.observe(false);

    let changed = streak.observe(true);

    assert_eq!(
        changed,
        ObservationDisposition::Changed { completed_duplicates: 2 }
    );
    assert_eq!(streak.pending_summary(), Some((true, 0)));
}

#[test]
fn shutdown_summary_reports_current_value_and_count() {
    let mut streak = ObservationStreak::default();
    streak.observe(false);
    streak.observe(false);
    streak.observe(false);
    streak.observe(true);

    assert_eq!(streak.pending_summary(), Some((true, 0)));
}

#[test]
fn sccm_and_bcm_streak_instances_cannot_interfere() {
    let mut sccm = ObservationStreak::default();
    let mut bcm = ObservationStreak::default();

    sccm.observe(false);
    sccm.observe(false);
    bcm.observe(true);

    assert_eq!(
        sccm.observe(false),
        ObservationDisposition::Duplicate { current_duplicates: 2 }
    );
    assert_eq!(
        bcm.observe(true),
        ObservationDisposition::Duplicate { current_duplicates: 1 }
    );
    assert_eq!(sccm.pending_summary(), Some((false, 2)));
    assert_eq!(bcm.pending_summary(), Some((true, 1)));
}

#[test]
fn bcm_left_and_right_streaks_are_independent() {
    let mut left = ObservationStreak::default();
    let mut right = ObservationStreak::default();

    left.observe(false);
    left.observe(false);
    right.observe(true);

    assert_eq!(
        left.observe(false),
        ObservationDisposition::Duplicate { current_duplicates: 2 }
    );
    assert_eq!(right.pending_summary(), Some((true, 0)));
    assert_eq!(
        right.observe(true),
        ObservationDisposition::Duplicate { current_duplicates: 1 }
    );
    assert_eq!(left.pending_summary(), Some((false, 2)));
}

#[test]
fn given_wiper_and_headlamp_zone_ids_when_compared_then_distinct() {
    let headlamp = AssemblyId::Headlamp;
    let wiper = AssemblyId::Wiper;
    assert_ne!(headlamp, wiper);
    assert_eq!(format!("{headlamp:?}"), "Headlamp");
    assert_eq!(format!("{wiper:?}"), "Wiper");
}

#[test]
fn given_rains_started_in_driving_when_zone_routed_then_wiper_start_message() {
    let result = zone_message_for_event(&FsmEvent::RainsStarted, &FsmState::Driving);
    match result {
        Some((zone_id, ZoneMessage::Wiper(WiperMessage::Start))) => {
            assert_eq!(zone_id, AssemblyId::Wiper);
        }
        other => panic!("expected Some((Wiper, Wiper(Start))), got {other:?}"),
    }
}

#[test]
fn given_rains_started_in_preparing_to_start_when_zone_routed_then_none() {
    let result = zone_message_for_event(
        &FsmEvent::RainsStarted,
        &FsmState::PreparingToStart(AssemblySet::new()),
    );
    assert!(result.is_none(), "expected None during PreparingToStart, got {result:?}");
}

#[test]
fn given_wiper_off_when_become_on_then_ready() {
    let ctx = WiperContext::default();
    assert_eq!(ctx.state, WiperState::Off);
    let reply = ctx.on_receiving_message(WiperMessage::BecomeOn);
    assert_eq!(reply.ctx.state, WiperState::Ready);
    assert!(reply.outcomes.is_empty());
}

#[test]
fn given_wiper_ready_when_start_then_running_with_start_wiping_outcome() {
    let mut ctx = WiperContext::default();
    ctx.state = WiperState::Ready;
    let reply = ctx.on_receiving_message(WiperMessage::Start);
    assert_eq!(reply.ctx.state, WiperState::Running);
    assert_eq!(reply.outcomes, vec![WiperOutcome::StartWiping]);
}

#[test]
fn given_wiper_running_when_stop_then_ready_with_stop_wiping_outcome() {
    let mut ctx = WiperContext::default();
    ctx.state = WiperState::Running;
    let reply = ctx.on_receiving_message(WiperMessage::Stop);
    assert_eq!(reply.ctx.state, WiperState::Ready);
    assert_eq!(reply.outcomes, vec![WiperOutcome::StopWiping]);
}

#[test]
fn given_wiper_log_warning_outcome_when_created_then_matches_variant() {
    let outcome = WiperOutcome::LogWarning("wiper unresponsive".to_string());
    assert!(matches!(outcome, WiperOutcome::LogWarning(_)));
}

#[test]
fn given_wiper_running_when_become_off_then_off_directly() {
    let mut ctx = WiperContext::default();
    ctx.state = WiperState::Running;
    let reply = ctx.on_receiving_message(WiperMessage::BecomeOff);
    assert_eq!(
        reply.ctx.state,
        WiperState::Off,
        "BecomeOff must go directly to Off from Running (no intermediate state)"
    );
    assert!(reply.outcomes.is_empty());
}

#[test]
fn summary_reports_the_final_run_of_a_sequence() {
    let mut streak = ObservationStreak::default();
    assert_eq!(streak.pending_summary(), None);
    for v in [true, true, false, true, false, false, false] {
        streak.observe(v);
    }
    assert_eq!(streak.pending_summary(), Some((false, 2)));
}
