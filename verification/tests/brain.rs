//! The brain's decision core, end to end on plain values.

use common::digital_twin::ZoneReply;
use common::fsm::{AssemblyId, DomainAction, FsmEvent, FsmState};
use common::observation_records::transition::{PublishedFsmEvent, PublishedFsmState, SessionClock};
use common::time::{Duration, Instant};
use common::twin_runtime::controller::virtual_car_actor::{TimerAbort, VirtualCarBrain};
use common::twin_runtime::detectors::AssemblyTopology;
use common::twin_runtime::headlamp_actor::{AckTimerAction, HeadlampActorState};
use common::twin_runtime::sccm_actor::SccmActorState;
use common::twin_runtime::turn_barrier::{TimeoutOutcome, TurnBarrier};
use common::twin_runtime::zone_tell_back::TellBackWait;
use common::observation_records::transition::PublishedDomainAction;
use common::vehicle_physics::{FRONT_HEADLAMP_ON_ACK_WAIT_MILLIS, LUX_ON_THRESHOLD, RPM_DRIVING_THRESHOLD};
use common::vehicle_state::{
    BcmContext, BcmMessage, HeadlampContext, HeadlampMessage, HeadlampOutcome, HeadlampState,
    HeadlampZoneReply, ObservedBool, SccmContext, SccmMessage, WiperContext, WiperMessage,
    WiperState,
};
use common::digital_twin::ZoneMessage;

fn clock() -> SessionClock {
    SessionClock::new(Instant::from_nanos(0), Duration::new(1_700_000_000, 0))
}

fn at(ms: u64) -> Instant {
    Instant::from_nanos(ms * 1_000_000)
}

fn brain(topology: AssemblyTopology) -> VirtualCarBrain {
    VirtualCarBrain::new("  CAR-1 ", clock(), topology, false).expect("non-blank identity")
}

fn bcm_ready_reply() -> ZoneReply {
    ZoneReply::Bcm(BcmContext::default().on_receiving_message(BcmMessage::BecomeOn))
}

/// Power on and let the BCM acknowledge its start-up.
fn powered(topology: AssemblyTopology) -> VirtualCarBrain {
    let mut b = brain(topology);
    let out = b.on_fsm_event(FsmEvent::PowerOn, at(1));
    assert_eq!(out.tells.len(), 1);
    let tell = out.tells[0];
    assert_eq!(tell.zone_id, AssemblyId::Bcm);
    let out = b.on_zone_ready(AssemblyId::Bcm, tell.turn_id, 0, bcm_ready_reply(), at(2));
    assert_eq!(out.transitions.len(), 1);
    b
}

#[test]
fn blank_identity_is_refused() {
    assert!(VirtualCarBrain::new(" \t ", clock(), AssemblyTopology::ObservedEcus, false).is_err());
    let b = brain(AssemblyTopology::ObservedEcus);
    assert_eq!(b.twin_car.identity(), "CAR-1");
    assert_eq!(b.snapshot().as_of_seq(), 0);
}

#[test]
fn power_on_starts_the_bcm_and_its_ack_reaches_idle() {
    let mut b = brain(AssemblyTopology::ObservedEcus);
    let out = b.on_fsm_event(FsmEvent::PowerOn, at(1));
    assert_eq!(out.transitions.len(), 1);
    assert_eq!(out.transitions[0].record_seq, 1);
    assert_eq!(out.transitions[0].event, PublishedFsmEvent::PowerOn);
    assert_eq!(out.transitions[0].next_state, PublishedFsmState::PreparingToStart);
    assert_eq!(out.tells.len(), 1);
    assert_eq!(out.tells[0].zone_id, AssemblyId::Bcm);
    assert_eq!(out.tells[0].message, ZoneMessage::Bcm(BcmMessage::BecomeOn));
    assert_eq!(out.tells[0].turn_id, 2);
    assert_eq!(out.tells[0].tell_attempt, 0);
    assert!(matches!(b.twin_car.current_state(), FsmState::PreparingToStart(_)));
    assert_eq!(b.barrier_queue.len(), 1);

    let out = b.on_zone_ready(AssemblyId::Bcm, 2, 0, bcm_ready_reply(), at(2));
    assert_eq!(out.timer_aborts, vec![TimerAbort { zone_id: AssemblyId::Bcm, turn_id: 2 }]);
    assert_eq!(out.transitions.len(), 1);
    assert_eq!(out.transitions[0].record_seq, 2);
    assert_eq!(out.transitions[0].next_state, PublishedFsmState::Idle);
    assert_eq!(*b.twin_car.current_state(), FsmState::Idle);
    assert!(b.barrier_queue.is_empty());
    assert_eq!(b.snapshot().as_of_seq(), 2);
}

#[test]
fn events_while_off_are_dropped() {
    let mut b = brain(AssemblyTopology::Legacy);
    let out = b.on_fsm_event(FsmEvent::UpdateRpm(3000), at(1));
    assert!(out.transitions.is_empty() && out.tells.is_empty() && out.diagnostics.is_empty());
    assert_eq!(b.next_turn_id, 1);
    assert_eq!(*b.twin_car.current_state(), FsmState::Off);
}

#[test]
fn lamp_and_rain_inputs_are_dropped_without_headlamp_and_wiper_zones() {
    let mut b = powered(AssemblyTopology::ObservedEcus);
    let turn = b.next_turn_id;
    let out = b.on_fsm_event(FsmEvent::RainsStarted, at(3));
    assert!(out.tells.is_empty() && out.transitions.is_empty());
    assert_eq!(b.next_turn_id, turn);
}

#[test]
fn stale_and_mismatched_tell_backs_are_ignored() {
    let mut b = powered(AssemblyTopology::ObservedEcus);
    let out = b.on_fsm_event(FsmEvent::HazardButtonObserved(true), at(3));
    let tell = out.tells[0];
    assert_eq!(tell.zone_id, AssemblyId::Sccm);
    let reply = ZoneReply::Sccm(SccmContext::default().on_receiving_message(SccmMessage::HazardButtonObserved(true)));
    // wrong attempt
    let out = b.on_zone_ready(AssemblyId::Sccm, tell.turn_id, 1, reply.clone(), at(4));
    assert!(out.transitions.is_empty() && out.timer_aborts.is_empty());
    // wrong kind of reply for the zone
    let out = b.on_zone_ready(AssemblyId::Sccm, tell.turn_id, 0, bcm_ready_reply(), at(4));
    assert!(out.transitions.is_empty());
    // the right one commits
    let out = b.on_zone_ready(AssemblyId::Sccm, tell.turn_id, 0, reply, at(4));
    assert_eq!(out.transitions.len(), 1);
    assert_eq!(b.twin_car.context().sccm.hazard_button, ObservedBool::On);
}

#[test]
fn a_waiting_turn_holds_back_later_turns_until_it_completes() {
    let mut b = powered(AssemblyTopology::ObservedEcus);
    let first = b.on_fsm_event(FsmEvent::HazardButtonObserved(true), at(3));
    assert!(first.transitions.is_empty());
    let hazard_turn = first.tells[0].turn_id;
    let second = b.on_fsm_event(FsmEvent::UpdateRpm(3000), at(4));
    assert!(second.transitions.is_empty(), "the passthrough turn waits behind the hazard turn");
    assert_eq!(b.barrier_queue.len(), 2);
    assert_eq!(*b.twin_car.current_state(), FsmState::Idle);

    let reply = ZoneReply::Sccm(SccmContext::default().on_receiving_message(SccmMessage::HazardButtonObserved(true)));
    let out = b.on_zone_ready(AssemblyId::Sccm, hazard_turn, 0, reply, at(5));
    assert_eq!(out.transitions.len(), 2);
    assert_eq!(out.transitions[0].event, PublishedFsmEvent::HazardButtonObserved(true));
    assert_eq!(out.transitions[1].event, PublishedFsmEvent::UpdateRpm(3000));
    assert_eq!(out.transitions[1].record_seq, out.transitions[0].record_seq + 1);
    assert_eq!(*b.twin_car.current_state(), FsmState::Driving);
    assert_eq!(b.snapshot().as_of_seq(), out.transitions[1].record_seq);
}

#[test]
fn a_silent_zone_is_retold_then_replaced_by_a_synthetic_reply() {
    let mut b = powered(AssemblyTopology::Legacy);
    let out = b.on_fsm_event(FsmEvent::RainsStarted, at(3));
    let tell = out.tells[0];
    assert_eq!(tell.zone_id, AssemblyId::Wiper);
    assert_eq!(tell.message, ZoneMessage::Wiper(WiperMessage::Start));

    let retry1 = b.on_zone_timeout(AssemblyId::Wiper, tell.turn_id, 0, at(60));
    assert_eq!(retry1.tells.len(), 1);
    assert_eq!(retry1.tells[0].tell_attempt, 1);
    assert_eq!(retry1.tells[0].now, at(3), "a re-tell carries the turn's arrival time");
    // a stale timer of the first attempt changes nothing
    let stale = b.on_zone_timeout(AssemblyId::Wiper, tell.turn_id, 0, at(61));
    assert!(stale.tells.is_empty() && stale.transitions.is_empty());

    let retry2 = b.on_zone_timeout(AssemblyId::Wiper, tell.turn_id, 1, at(110));
    assert_eq!(retry2.tells[0].tell_attempt, 2);
    let gave_up = b.on_zone_timeout(AssemblyId::Wiper, tell.turn_id, 2, at(160));
    assert!(gave_up.tells.is_empty());
    assert_eq!(gave_up.transitions.len(), 1);
    assert!(gave_up
        .diagnostics
        .iter()
        .any(|d| d.render().contains("wiper unresponsive")));
    assert!(b.twin_car.context().weather.raining);
    assert_eq!(b.twin_car.context().wiper, WiperContext::default());
}

#[test]
fn a_wiper_start_reply_is_actuated_and_reported() {
    let mut b = powered(AssemblyTopology::Legacy);
    let out = b.on_fsm_event(FsmEvent::RainsStarted, at(3));
    let tell = out.tells[0];
    let ready = WiperContext { state: WiperState::Ready };
    let reply = ZoneReply::Wiper(ready.on_receiving_message(WiperMessage::Start));
    let out = b.on_zone_ready(AssemblyId::Wiper, tell.turn_id, 0, reply, at(4));
    assert_eq!(out.executions, vec![DomainAction::RequestWiperStart]);
    assert_eq!(b.twin_car.context().wiper.state, WiperState::Running);
    let texts: Vec<String> = out.diagnostics.iter().map(|d| d.render()).collect();
    assert!(texts.iter().any(|t| t.contains("rain raining=true")));
    assert!(texts.iter().any(|t| t.contains("wiper wiping=true")));
}

#[test]
fn timer_ticks_are_reported_only_when_enabled() {
    let mut quiet = powered(AssemblyTopology::ObservedEcus);
    assert!(quiet.on_fsm_event(FsmEvent::TimerTick, at(10)).diagnostics.is_empty());
    let mut loud = VirtualCarBrain::new("CAR-2", clock(), AssemblyTopology::ObservedEcus, true).unwrap();
    let out = loud.on_fsm_event(FsmEvent::PowerOn, at(1));
    let t = out.tells[0].turn_id;
    loud.on_zone_ready(AssemblyId::Bcm, t, 0, bcm_ready_reply(), at(2));
    let out = loud.on_fsm_event(FsmEvent::TimerTick, at(10));
    assert_eq!(out.diagnostics.len(), 1);
    assert!(out.diagnostics[0].render().contains("timer tick"));
}

#[test]
fn power_off_while_driving_is_rejected_with_a_warning() {
    let mut b = powered(AssemblyTopology::ObservedEcus);
    b.on_fsm_event(FsmEvent::UpdateRpm(3000), at(3));
    assert_eq!(*b.twin_car.current_state(), FsmState::Driving);
    let out = b.on_fsm_event(FsmEvent::PowerOff, at(4));
    assert_eq!(*b.twin_car.current_state(), FsmState::Driving);
    assert!(out.diagnostics.iter().any(|d| d
        .render()
        .contains("[REJECTED]: vehicle must be Idle before PowerOff; current state is Driving")));
}

/// Carry one headlamp tell through the headlamp zone runtime and back into the brain.
fn headlamp_round_trip(
    b: &mut VirtualCarBrain,
    zone: &mut HeadlampActorState,
    out: &common::twin_runtime::controller::virtual_car_actor::BrainOutput,
    now: Instant,
) -> (common::twin_runtime::controller::virtual_car_actor::BrainOutput, AckTimerAction) {
    assert_eq!(out.tells.len(), 1);
    let tell = out.tells[0];
    assert_eq!(tell.zone_id, AssemblyId::Headlamp);
    let ZoneMessage::Headlamp(message) = tell.message else {
        panic!("expected a headlamp tell, got {:?}", tell.message);
    };
    let (reply, action) = zone.on_tell(message, tell.now).expect("a live zone tells back");
    let back = b.on_zone_ready(AssemblyId::Headlamp, tell.turn_id, 0, ZoneReply::Headlamp(reply), now);
    (back, action)
}

#[test]
fn headlamp_ack_timeout_in_the_dark_is_committed_as_an_incomplete_hop() {
    let mut b = powered(AssemblyTopology::Legacy);
    let mut zone = HeadlampActorState::new(
        HeadlampContext { state: HeadlampState::Ready, ack_pending_since: None },
        false,
    );

    // Daylight first: the lamp stays dark.
    let out = b.on_fsm_event(FsmEvent::UpdateAmbientLux(LUX_ON_THRESHOLD + 100), at(3));
    let (back, _) = headlamp_round_trip(&mut b, &mut zone, &out, at(4));
    assert_eq!(back.transitions.len(), 1);

    let out = b.on_fsm_event(FsmEvent::UpdateRpm(RPM_DRIVING_THRESHOLD + 200), at(5));
    assert_eq!(out.transitions.len(), 1);
    assert_eq!(*b.twin_car.current_state(), FsmState::Driving);

    // Dusk: the zone requests the lamp on and arms its acknowledgement watchdog.
    let out = b.on_fsm_event(FsmEvent::UpdateAmbientLux(20), at(6));
    let (back, action) = headlamp_round_trip(&mut b, &mut zone, &out, at(7));
    assert_eq!(back.transitions.len(), 1);
    assert_eq!(back.transitions[0].next_state, PublishedFsmState::Driving);
    assert!(back.executions.contains(&DomainAction::RequestFrontHeadlampOn));
    assert_eq!(b.twin_car.context().headlamp.state, HeadlampState::OnRequested);
    let AckTimerAction::Arm { deadline_id, wait_millis } = action else {
        panic!("the switch request must arm the watchdog, got {action:?}");
    };
    assert_eq!(wait_millis, FRONT_HEADLAMP_ON_ACK_WAIT_MILLIS);

    // No acknowledgement arrives: the watchdog reports the switch incomplete.
    let expired = at(6 + wait_millis);
    let event = zone.on_ack_deadline(deadline_id, expired).expect("the current deadline counts");
    let out = b.on_zone_spontaneous(event, expired);
    assert_eq!(out.transitions.len(), 1, "one hop: no lighting detector is registered");
    assert!(matches!(
        out.transitions[0].event,
        PublishedFsmEvent::FrontHeadlampActuationIncomplete { .. }
    ));
    assert_eq!(out.transitions[0].next_state, PublishedFsmState::Driving);
    assert_eq!(*b.twin_car.current_state(), FsmState::Driving);
    assert_eq!(b.twin_car.context().headlamp.state, HeadlampState::Ready);
    assert_eq!(b.snapshot().as_of_seq(), out.transitions[0].record_seq);
    assert!(out
        .diagnostics
        .iter()
        .any(|d| d.render().contains("headlamp actuation unconfirmed direction=ON cause=TimedOut")),
        "the unconfirmed switch is reported");

    // A stale deadline changes nothing.
    assert!(zone.on_ack_deadline(deadline_id, expired).is_none());
}

fn headlamp_reply(state: HeadlampState, outcomes: Vec<HeadlampOutcome>) -> ZoneReply {
    ZoneReply::Headlamp(HeadlampZoneReply {
        ctx: HeadlampContext { state, ack_pending_since: None },
        outcomes,
    })
}

/// Two dusk turns for the headlamp: the front one and the rear one.
fn two_headlamp_turns(b: &mut VirtualCarBrain) -> (u64, u64) {
    let front = b.on_fsm_event(FsmEvent::UpdateAmbientLux(20), at(3));
    let rear = b.on_fsm_event(FsmEvent::UpdateAmbientLux(10), at(4));
    assert_eq!(front.tells.len(), 1);
    assert_eq!(rear.tells.len(), 1);
    (front.tells[0].turn_id, rear.tells[0].turn_id)
}

#[test]
fn duplicate_same_attempt_reply_cannot_overwrite_accepted_reply() {
    let mut b = powered(AssemblyTopology::Legacy);
    let (front, rear) = two_headlamp_turns(&mut b);

    let accepted = b.on_zone_ready(
        AssemblyId::Headlamp,
        rear,
        0,
        headlamp_reply(HeadlampState::OnRequested, vec![HeadlampOutcome::RequestOn]),
        at(5),
    );
    assert_eq!(accepted.timer_aborts.len(), 1);
    let duplicate = b.on_zone_ready(AssemblyId::Headlamp, rear, 0, headlamp_reply(HeadlampState::Ready, vec![]), at(6));
    assert!(duplicate.timer_aborts.is_empty() && duplicate.transitions.is_empty());

    let rows = b.on_zone_ready(AssemblyId::Headlamp, front, 0, headlamp_reply(HeadlampState::Ready, vec![]), at(7));
    assert_eq!(rows.transitions.len(), 2);
    assert!(
        rows.transitions[1].actions.contains(&PublishedDomainAction::RequestFrontHeadlampOn),
        "duplicate reply replaced the first accepted outcome: {:?}",
        rows.transitions[1].actions
    );
}

#[test]
fn matching_timeout_after_accepted_reply_cannot_retry_or_alter_reply() {
    let mut b = powered(AssemblyTopology::Legacy);
    let (front, rear) = two_headlamp_turns(&mut b);

    b.on_zone_ready(
        AssemblyId::Headlamp,
        rear,
        0,
        headlamp_reply(HeadlampState::OnRequested, vec![HeadlampOutcome::RequestOn]),
        at(5),
    );
    let timeout = b.on_zone_timeout(AssemblyId::Headlamp, rear, 0, at(6));
    assert!(timeout.tells.is_empty(), "a timeout after the accepted reply must not re-tell");
    let late = b.on_zone_ready(AssemblyId::Headlamp, rear, 1, headlamp_reply(HeadlampState::Ready, vec![]), at(7));
    assert!(late.timer_aborts.is_empty());

    let rows = b.on_zone_ready(AssemblyId::Headlamp, front, 0, headlamp_reply(HeadlampState::Ready, vec![]), at(8));
    assert_eq!(rows.transitions.len(), 2);
    assert!(
        rows.transitions[1].actions.contains(&PublishedDomainAction::RequestFrontHeadlampOn),
        "post-reply timeout retried and allowed replacement: {:?}",
        rows.transitions[1].actions
    );
}

#[test]
fn a_barrier_keeps_its_first_accepted_reply_and_ignores_later_timers() {
    let mut barrier = TurnBarrier::new(9, FsmEvent::UpdateAmbientLux(20), at(1));
    barrier.add_pending_zone(
        AssemblyId::Headlamp,
        ZoneMessage::Headlamp(HeadlampMessage::AmbientLux(20)),
        TellBackWait::new(9),
    );
    let first = headlamp_reply(HeadlampState::OnRequested, vec![HeadlampOutcome::RequestOn]);
    barrier.act_on_zone_reply(AssemblyId::Headlamp, first.clone());
    assert!(barrier.is_complete());
    assert!(!barrier.is_pending(AssemblyId::Headlamp));

    barrier.act_on_zone_reply(AssemblyId::Headlamp, headlamp_reply(HeadlampState::Ready, vec![]));
    assert_eq!(barrier.act_on_zone_timeout(AssemblyId::Headlamp, 0), TimeoutOutcome::Ignored);
    assert!(barrier.tell_attempt_matches(AssemblyId::Headlamp, 0));
    assert!(!barrier.tell_attempt_matches(AssemblyId::Headlamp, 1));
    let resolved = barrier.into_resolved_turn();
    assert_eq!(resolved.zone_replies.get(&AssemblyId::Headlamp), Some(&first));
}

#[test]
fn duplicate_observations_publish_no_ledger_row() {
    let mut b = powered(AssemblyTopology::ObservedEcus);
    let mut sccm = SccmActorState::new(SccmContext::default(), false);
    let seq_before = b.next_record_seq;

    let mut rows = Vec::new();
    for (k, pressed) in [false, false, false, true].into_iter().enumerate() {
        let out = b.on_fsm_event(FsmEvent::HazardButtonObserved(pressed), at(10 + k as u64));
        assert_eq!(out.tells.len(), 1);
        let tell = out.tells[0];
        let ZoneMessage::Sccm(message) = tell.message else {
            panic!("expected an SCCM tell, got {:?}", tell.message);
        };
        let reply = sccm.on_tell(message).expect("a live zone tells back");
        let out = b.on_zone_ready(AssemblyId::Sccm, tell.turn_id, 0, ZoneReply::Sccm(reply), at(20 + k as u64));
        assert!(b.barrier_queue.is_empty(), "the turn leaves the queue either way");
        rows.extend(out.transitions);
    }

    assert_eq!(rows.len(), 2, "only the first value and the change publish rows");
    assert_eq!(rows[0].event, PublishedFsmEvent::HazardButtonObserved(false));
    assert_eq!(rows[1].event, PublishedFsmEvent::HazardButtonObserved(true));
    assert_eq!(rows[0].record_seq, seq_before);
    assert_eq!(rows[1].record_seq, seq_before + 1);
    assert_eq!(b.next_record_seq, seq_before + 2);
    assert_eq!(b.twin_car.context().sccm.hazard_button, ObservedBool::On);
}
