//! Zone-agnostic commit inputs: zone replies on a resolved turn, and the synthetic reply of an
//! unresponsive zone.

use common::digital_twin::ZoneReply;
use common::fsm::{AssemblyId, DomainAction, FsmEvent, FsmState};
use common::time::Instant;
use common::twin_runtime::detectors::AssemblyTopology;
use common::twin_runtime::twin_turn::{commit_resolved_turn, twin_turn, ResolvedTurn};
use common::twin_runtime::zone_tell_back::synthetic_unresponsive_headlamp_reply;
use common::twin_runtime::sccm_actor::SccmActorState;
use common::twin_runtime::ZoneReplies;
use common::vehicle_physics::{front_headlamp_on_ack_wait, LUX_ON_THRESHOLD, RPM_DRIVING_THRESHOLD};
use common::vehicle_state::{
    HeadlampContext, HeadlampState, HeadlampZoneReply, SccmContext, SccmMessage, VehicleContext,
};

fn t0() -> Instant {
    Instant::from_nanos(1_000_000_000)
}

fn driving_ctx() -> VehicleContext {
    let mut ctx = VehicleContext::default();
    ctx.visibility.ambient_lux = 20;
    ctx.powertrain.apply_rpm(RPM_DRIVING_THRESHOLD + 200);
    ctx.powertrain.refresh_speed();
    ctx
}

#[test]
fn test_power_off_does_not_speculatively_run_zone_turn() {
    let ctx = VehicleContext::default();
    let result = twin_turn(&FsmState::Idle, &ctx, &FsmEvent::PowerOff, t0());
    assert!(matches!(result.next_state, FsmState::PreparingToStop(_)));
    assert_eq!(
        result.modified_ctx.headlamp.state, ctx.headlamp.state,
        "PowerOff must not mutate headlamp state (no speculative IgnitionOffReset)"
    );
}

#[test]
fn given_headlamp_ingress_embed_when_commit_resolved_turn_then_uses_tell_back_not_local_zone() {
    let ctx = driving_ctx();
    let embed = HeadlampZoneReply {
        ctx: HeadlampContext {
            state: HeadlampState::On,
            ack_pending_since: None,
        },
        outcomes: vec![],
    };

    let quiescent = commit_resolved_turn(
        &FsmState::Driving,
        &ctx,
        ResolvedTurn {
            ingress: FsmEvent::TimerTick,
            now: t0(),
            zone_replies: ZoneReplies::with_reply(AssemblyId::Headlamp, ZoneReply::Headlamp(embed)),
        },
        AssemblyTopology::Legacy,
    );

    assert_eq!(
        quiescent.final_step().modified_ctx.headlamp.state,
        HeadlampState::On,
        "ingress tell-back embed must win over local on_receiving_message"
    );
}

#[test]
fn given_simulated_replies_when_twin_turn_after_ack_wait_then_phase_one_stays_single_hop() {
    let t0 = t0();
    let after_wait = t0.checked_add(&front_headlamp_on_ack_wait()).expect("instant within range");
    let mut ctx = driving_ctx();
    ctx.headlamp.state = HeadlampState::OnRequested;
    ctx.headlamp.ack_pending_since = Some(t0);

    let single = twin_turn(&FsmState::Driving, &ctx, &FsmEvent::TimerTick, after_wait);
    let quiescent = commit_resolved_turn(
        &FsmState::Driving,
        &ctx,
        ResolvedTurn {
            ingress: FsmEvent::TimerTick,
            now: after_wait,
            zone_replies: ZoneReplies::simulate_locally(),
        },
        AssemblyTopology::Legacy,
    );

    assert_eq!(quiescent.hops.len(), 1);
    assert_eq!(
        quiescent.hops[0].result.modified_ctx.headlamp.state,
        single.modified_ctx.headlamp.state
    );
    assert_eq!(quiescent.final_step().next_state, FsmState::Driving);
}

fn dusk_driving_ctx() -> VehicleContext {
    let mut ctx = VehicleContext::default();
    ctx.visibility.ambient_lux = LUX_ON_THRESHOLD;
    ctx.powertrain.apply_rpm(RPM_DRIVING_THRESHOLD + 100);
    ctx.powertrain.refresh_speed();
    ctx
}

#[test]
fn synthetic_unresponsive_embed_surfaces_log_warning_on_commit() {
    let ctx = HeadlampContext::default();
    let synthetic = synthetic_unresponsive_headlamp_reply(&ctx);
    let quiescent = commit_resolved_turn(
        &FsmState::Driving,
        &dusk_driving_ctx(),
        ResolvedTurn {
            ingress: FsmEvent::TimerTick,
            now: t0(),
            zone_replies: ZoneReplies::with_reply(
                AssemblyId::Headlamp,
                ZoneReply::Headlamp(synthetic),
            ),
        },
        AssemblyTopology::ObservedEcus,
    );
    assert!(
        quiescent
            .merged_actions()
            .iter()
            .any(|a| matches!(a, DomainAction::LogWarning(msg) if msg.contains("unresponsive"))),
        "ledger path must carry unresponsive warning, got {:?}",
        quiescent.merged_actions()
    );
}

#[test]
fn quiescence_runs_a_duplicate_observation_like_any_other_turn() {
    let mut zone = SccmActorState::new(SccmContext::default(), false);
    zone.on_tell(SccmMessage::HazardButtonObserved(true)).expect("a live zone tells back");
    let duplicate = zone.on_tell(SccmMessage::HazardButtonObserved(true)).expect("a live zone tells back");
    let quiescent = commit_resolved_turn(
        &FsmState::Idle,
        &VehicleContext::default(),
        ResolvedTurn {
            ingress: FsmEvent::HazardButtonObserved(true),
            now: t0(),
            zone_replies: ZoneReplies::with_reply(AssemblyId::Sccm, ZoneReply::Sccm(duplicate)),
        },
        AssemblyTopology::ObservedEcus,
    );
    assert_eq!(quiescent.hops.len(), 1, "only the brain's commit leaves duplicates out");
    assert_eq!(quiescent.final_step().next_state, FsmState::Idle);
}
