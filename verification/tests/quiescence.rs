//! The brain's commit hook: `commit_resolved_turn` runs a resolved turn to quiescence.

use common::fsm::{DomainAction, FsmEvent, FsmState, Operational};
use common::time::Instant;
use common::twin_runtime::detectors::AssemblyTopology;
use common::twin_runtime::twin_turn::{commit_resolved_turn, ResolvedTurn};
use common::twin_runtime::ZoneReplies;
use common::vehicle_physics::{front_headlamp_on_ack_wait, RPM_DRIVING_THRESHOLD};
use common::vehicle_state::{HeadlampState, VehicleContext};

fn ctx_driving_in_dark() -> VehicleContext {
    let mut ctx = VehicleContext::default();
    ctx.visibility.ambient_lux = 20;
    ctx.powertrain.apply_rpm(RPM_DRIVING_THRESHOLD + 200);
    ctx.powertrain.refresh_speed();
    ctx
}

#[test]
fn given_driving_on_requested_in_dark_when_commit_resolved_turn_then_phase_one_stays_driving() {
    let t0 = Instant::from_nanos(1_000_000_000);
    let mut ctx = ctx_driving_in_dark();
    ctx.headlamp.state = HeadlampState::OnRequested;
    ctx.headlamp.ack_pending_since = Some(t0);

    let quiescent = commit_resolved_turn(
        &FsmState::Driving,
        &ctx,
        ResolvedTurn {
            ingress: FsmEvent::TimerTick,
            now: t0.checked_add(&front_headlamp_on_ack_wait()).expect("instant within range"),
            zone_replies: ZoneReplies::simulate_locally(),
        },
        AssemblyTopology::Legacy,
    );

    assert_eq!(quiescent.hops.len(), 1);
    assert_eq!(quiescent.hops[0].event, FsmEvent::TimerTick);
    assert_eq!(quiescent.final_step().next_state, FsmState::Driving);
    assert!(!quiescent
        .merged_actions()
        .contains(&DomainAction::StartBuzzer));
}

#[test]
fn given_driving_in_dark_when_commit_resolved_turn_without_zone_reply_then_single_hop_stays_driving(
) {
    let t0 = Instant::from_nanos(1_000_000_000);
    let mut ctx = ctx_driving_in_dark();
    ctx.headlamp.state = HeadlampState::OnRequested;
    ctx.headlamp.ack_pending_since = Some(t0);

    let quiescent = commit_resolved_turn(
        &FsmState::Driving,
        &ctx,
        ResolvedTurn {
            ingress: FsmEvent::TimerTick,
            now: t0,
            zone_replies: ZoneReplies::simulate_locally(),
        },
        AssemblyTopology::Legacy,
    );

    assert_eq!(quiescent.hops.len(), 1);
    assert_eq!(quiescent.final_step().next_state, FsmState::Driving);
    assert!(
        !quiescent
            .hops
            .iter()
            .any(|h| matches!(h.event, FsmEvent::Internal(Operational::LightingUnsafe))),
        "no internal hop before ACK timeout"
    );
}
