//! Laws of the turn pipeline and of the brain: what every hop, every committed turn and every
//! drain of the reorder queue keeps.
use vstd::prelude::*;

use crate::digital_twin::{spec_reply_assembly, spec_reply_disposition, spec_state_laws_hold, ZoneReply};
use crate::twin_runtime::bcm_actor::{spec_bcm_applied, BcmActorState};
use crate::twin_runtime::sccm_actor::{spec_sccm_applied, SccmActorState};
use crate::vehicle_state::{
    spec_bcm_next, spec_flcm_on_message, spec_headlamp_next, spec_headlamp_outcomes, spec_sccm_on_message,
    spec_wiper_next, spec_wiper_outcomes, BcmMessage, BcmOutcome, BcmZoneReply, HeadlampContext, HeadlampMessage,
    HeadlampOutcomeView, HeadlampState, SccmMessage, SccmZoneReply, WiperContext, WiperMessage, WiperOutcomeView,
    WiperState,
};
use crate::fsm::{AssemblyId, FsmEvent, FsmState};
use crate::time::Instant;
use crate::twin_runtime::detectors::AssemblyTopology;
use crate::twin_runtime::twin_turn::{
    spec_duplicate_turn, spec_is_duplicate_reply, spec_hop, spec_hop_start_ctx, spec_hop_start_state, spec_merged, spec_quiescent, HopRecord,
};
use crate::twin_runtime::zone_turn::{
    headlamp_outcomes_view, spec_user_event_to_zone_tell, spec_zone_turn, wiper_outcomes_view, ZoneOutcomeView,
};
use crate::twin_runtime::outcome_map::{spec_outcome_action, spec_outcome_actions};
use crate::digital_twin::ZoneMessage;
use crate::fsm::DomainActionView;
use crate::twin_runtime::controller::virtual_car_actor::{
    spec_committed, spec_drain_step, spec_drain_trace, spec_drained, spec_sat, BrainOutput, VirtualCarBrain,
};
use crate::twin_runtime::turn_barrier::BarrierEntry;
use crate::vehicle_state::VehicleContext;

verus! {

/// The zones never touch the powertrain, except that an engine-speed update sets every wheel
/// to the new speed (or, while off, stops the car).
proof fn lemma_zone_turn_powertrain(
    ctx: VehicleContext,
    event: FsmEvent,
    state: FsmState,
    now: Instant,
    replies: Map<AssemblyId, ZoneReply>,
)
    ensures
        !(event is UpdateRpm) ==> spec_zone_turn(ctx, event, state, now, replies).0.powertrain == ctx.powertrain,
        (event matches FsmEvent::UpdateRpm(rpm) && !(state is Off) && spec_zone_turn(ctx, event, state, now, replies).0.powertrain.spec_primary_rpm() == rpm) || !(event is UpdateRpm) || state is Off,
{
}

/// Every hop leaves a cut that satisfies the state laws when it starts from one: a driving
/// mode always has the wheels above the driving threshold, and the road speed is always the one
/// the wheels give.
pub proof fn law_hop_keeps_state_laws(
    state: FsmState,
    ctx: VehicleContext,
    event: FsmEvent,
    now: Instant,
    replies: Map<AssemblyId, ZoneReply>,
    r: crate::fsm::StepResult,
)
    requires
        spec_state_laws_hold(state, ctx),
        spec_hop(state, ctx, event, now, replies, r),
    ensures
        spec_state_laws_hold(r.next_state, r.modified_ctx),
{
    lemma_zone_turn_powertrain(ctx, event, state, now, replies);
}

/// The cut every hop of a committed turn starts from satisfies the state laws, up to hop `k`.
proof fn lemma_hops_keep_state_laws(
    initial_state: FsmState,
    initial_ctx: VehicleContext,
    ingress: FsmEvent,
    now: Instant,
    replies: Map<AssemblyId, ZoneReply>,
    topology: AssemblyTopology,
    hops: Seq<HopRecord>,
    k: int,
)
    requires
        spec_state_laws_hold(initial_state, initial_ctx),
        spec_quiescent(initial_state, initial_ctx, ingress, now, replies, topology, hops),
        0 <= k <= hops.len(),
    ensures
        spec_state_laws_hold(spec_hop_start_state(initial_state, hops, k), spec_hop_start_ctx(initial_ctx, hops, k)),
    decreases k,
{
    if k > 0 {
        lemma_hops_keep_state_laws(initial_state, initial_ctx, ingress, now, replies, topology, hops, k - 1);
        let j = k - 1;
        assert(spec_hop(
            spec_hop_start_state(initial_state, hops, j),
            spec_hop_start_ctx(initial_ctx, hops, j),
            hops[j].event,
            now,
            if j == 0 { replies } else { Map::<AssemblyId, ZoneReply>::empty() },
            hops[j].result,
        ));
        law_hop_keeps_state_laws(
            spec_hop_start_state(initial_state, hops, j),
            spec_hop_start_ctx(initial_ctx, hops, j),
            hops[j].event,
            now,
            if j == 0 { replies } else { Map::<AssemblyId, ZoneReply>::empty() },
            hops[j].result,
        );
    }
}

/// A committed turn that starts from a cut satisfying the state laws ends in one, and so does
/// every hop in between.
pub proof fn law_quiescent_turn_keeps_state_laws(
    initial_state: FsmState,
    initial_ctx: VehicleContext,
    ingress: FsmEvent,
    now: Instant,
    replies: Map<AssemblyId, ZoneReply>,
    topology: AssemblyTopology,
    hops: Seq<HopRecord>,
)
    requires
        spec_state_laws_hold(initial_state, initial_ctx),
        spec_quiescent(initial_state, initial_ctx, ingress, now, replies, topology, hops),
    ensures
        forall|k: int| 0 <= k < hops.len() ==> spec_state_laws_hold(#[trigger] hops[k].result.next_state, hops[k].result.modified_ctx),
{
    assert forall|k: int| 0 <= k < hops.len() implies spec_state_laws_hold(#[trigger] hops[k].result.next_state, hops[k].result.modified_ctx) by {
        lemma_hops_keep_state_laws(initial_state, initial_ctx, ingress, now, replies, topology, hops, k + 1);
    }
}

/// No action list in `s` is a coordination hint.
pub open spec fn spec_no_coordination(s: Seq<crate::fsm::DomainActionView>) -> bool {
    forall|j: int| 0 <= j < s.len() ==> !((#[trigger] s[j]) is StartAssemblies || s[j] is StopAssemblies)
}

/// A brain-synthesized event never moves the FSM into a start-up or shutdown, so it never asks
/// for coordination.
proof fn lemma_internal_step_has_no_coordination(state: FsmState, ctx: VehicleContext, op: crate::fsm::Operational, now: Instant)
    ensures
        spec_no_coordination(crate::fsm::spec_step_actions(state, ctx, FsmEvent::Internal(op), now)),
{
    let event = FsmEvent::Internal(op);
    let c = crate::fsm::spec_step_ctx(ctx);
    let t = crate::fsm::spec_transition(state, event, c, now);
    let out = crate::fsm::spec_output(state, t.next_state, c);
    assert(!(t.next_state is PreparingToStart) || state is PreparingToStart);
    assert(!(t.next_state is PreparingToStop) || state is PreparingToStop);
    assert(t.note is None);
    reveal_with_fuel(crate::fsm::spec_lift_actions, 4);
    assert(out.len() <= 3);
    if out.len() == 1 {
        assert(out.drop_last() =~= Seq::<crate::fsm::FsmActionView>::empty());
    }
    if out.len() == 2 {
        assert(out.drop_last().drop_last() =~= Seq::<crate::fsm::FsmActionView>::empty());
    }
    if out.len() == 3 {
        assert(out.drop_last().drop_last().drop_last() =~= Seq::<crate::fsm::FsmActionView>::empty());
    }
}

/// Ledger rows never carry coordination hints: every hop's transition record lists domain
/// intents only.
pub proof fn law_ledger_rows_have_no_coordination(
    state: FsmState,
    ctx: VehicleContext,
    event: FsmEvent,
    now: Instant,
    replies: Map<AssemblyId, ZoneReply>,
    r: crate::fsm::StepResult,
)
    requires
        spec_hop(state, ctx, event, now, replies, r),
    ensures
        spec_no_coordination(r.transition_record.actions.deep_view()),
{
    match event {
        FsmEvent::Internal(op) => {
            lemma_internal_step_has_no_coordination(state, ctx, op, now);
        },
        _ => {
            let s = r.actions.deep_view();
            let pred = |a: crate::fsm::DomainActionView| !(a is StartAssemblies || a is StopAssemblies);
            assert forall|j: int| 0 <= j < s.filter(pred).len() implies pred(#[trigger] s.filter(pred)[j]) by {
                s.lemma_filter_pred(pred, j);
            }
        },
    }
}

/// Turns commit in arrival order: a queued turn that is still waiting on a zone is not
/// committed by a drain, and neither is any turn that arrived after it; they all stay queued,
/// in order, at the front.
pub proof fn law_waiting_turn_blocks_later_turns(
    b0: VirtualCarBrain,
    b1: VirtualCarBrain,
    o0: BrainOutput,
    o1: BrainOutput,
    now: Instant,
    i: int,
)
    requires
        spec_drained(b0, b1, o0, o1, now),
        0 <= i < b0.barrier_queue@.len(),
        !b0.barrier_queue@[i].spec_complete(),
    ensures
        exists|k: int| {
            &&& 0 <= k <= i
            &&& b1.barrier_queue@.len() >= b0.barrier_queue@.len() - k
            &&& #[trigger] b0.barrier_queue@.skip(k) == b1.barrier_queue@.subrange(0, b0.barrier_queue@.len() - k)
        },
{
    let q0 = b0.barrier_queue@;
    let (bs, os, hs) = choose|bs: Seq<VirtualCarBrain>, os: Seq<BrainOutput>, hs: Seq<Seq<HopRecord>>| {
        &&& #[trigger] spec_drain_trace(b0, b1, o0, o1, bs, os, hs, now)
        &&& b1.barrier_queue@.len() >= q0.len() - hs.len()
        &&& b1.barrier_queue@.subrange(0, q0.len() - hs.len()) == q0.skip(hs.len() as int)
    };
    let k = hs.len() as int;
    if i < k {
        assert(spec_drain_step(bs[i], bs[i + 1], os[i], os[i + 1], hs[i], now));
        assert(bs[i].barrier_queue@[0] == q0[i]);
    }
    assert(q0.skip(k) == b1.barrier_queue@.subrange(0, q0.len() - k));
}

/// Ledger numbering: a commit publishes one record per hop, numbered consecutively from the
/// brain's next sequence, and afterwards the brain's snapshot sequence is the last record's
/// (unless the counter is exhausted); a commit without hops publishes nothing and keeps the
/// sequence.
pub proof fn law_commit_numbers_records_consecutively(
    b0: VirtualCarBrain,
    q0: Seq<BarrierEntry>,
    b1: VirtualCarBrain,
    o0: BrainOutput,
    o1: BrainOutput,
    hops: Seq<HopRecord>,
    now: Instant,
)
    requires
        spec_committed(b0, q0, b1, o0, o1, hops, now),
        b0.next_record_seq + hops.len() <= u64::MAX,
    ensures
        forall|k: int| 0 <= k < hops.len() ==> (#[trigger] o1.transitions@[o0.transitions@.len() + k]).record_seq == b0.next_record_seq + k,
        b1.next_record_seq == b0.next_record_seq + hops.len(),
        o1.transitions@.len() == o0.transitions@.len() + hops.len(),
        hops.len() > 0 ==> o1.transitions@.last().record_seq == b1.next_record_seq - 1,
{
    assert forall|k: int| 0 <= k < hops.len() implies (#[trigger] o1.transitions@[o0.transitions@.len() + k]).record_seq == b0.next_record_seq + k by {
        assert(crate::observation_records::transition::spec_record_published(
            hops[k].result.transition_record,
            b0.twin_car.spec_identity(),
            spec_sat(b0.next_record_seq, k),
            b0.session_clock,
            o1.transitions@[o0.transitions@.len() + k],
        ));
    }
    let last = hops.len() - 1;
    assert(o1.transitions@.last() == o1.transitions@[o0.transitions@.len() + last]);
}

/// A duplicate observation leaves no trace: draining a turn whose observing zone replied that
/// it had already seen the value publishes no ledger row, keeps the ledger sequence, leaves the
/// twin as it was and asks for nothing; the turn only leaves the queue.
pub proof fn law_duplicate_observation_publishes_nothing(
    b0: VirtualCarBrain,
    b1: VirtualCarBrain,
    o0: BrainOutput,
    o1: BrainOutput,
    hops: Seq<HopRecord>,
    now: Instant,
)
    requires
        spec_drain_step(b0, b1, o0, o1, hops, now),
        spec_duplicate_turn(b0.barrier_queue@[0].spec_replies()),
    ensures
        hops.len() == 0,
        b1.twin_car == b0.twin_car,
        b1.next_record_seq == b0.next_record_seq,
        b1.next_turn_id == b0.next_turn_id,
        b1.barrier_queue@ == b0.barrier_queue@.skip(1),
        o1.transitions@ == o0.transitions@,
        o1.diagnostics == o0.diagnostics,
        o1.tells@ == o0.tells@,
        o1.executions.deep_view() == o0.executions.deep_view(),
{
    assert(spec_merged(hops) =~= Seq::<crate::fsm::DomainActionView>::empty());
    assert(crate::twin_runtime::controller::virtual_car_actor::spec_lifecycle_requests(spec_merged(hops))
        =~= Seq::<(AssemblyId, bool)>::empty());
    assert(crate::twin_runtime::controller::virtual_car_actor::spec_executed(spec_merged(hops))
        =~= Seq::<crate::fsm::DomainActionView>::empty());
    assert(o1.transitions@ =~= o1.transitions@.subrange(0, o0.transitions@.len() as int));
    assert(b1.barrier_queue@ =~= b1.barrier_queue@.subrange(0, b0.barrier_queue@.skip(1).len() as int));
    assert(o1.tells@ =~= o0.tells@ + crate::twin_runtime::controller::virtual_car_actor::spec_lifecycle_tells(
        Seq::empty(),
        b0.next_turn_id,
        now,
    ));
    assert(o1.executions.deep_view() =~= o0.executions.deep_view() + Seq::<crate::fsm::DomainActionView>::empty());
}

/// A reply marks its turn as a duplicate exactly when its zone classified the message as a
/// repeat: for every reply, being a duplicate is having a `Duplicate` disposition, and a turn
/// whose only tell-back is such a reply, from any zone, is a duplicate turn.
pub proof fn law_duplicate_reply_is_a_repeat_disposition(r: ZoneReply)
    ensures
        spec_is_duplicate_reply(r) <==> spec_reply_disposition(r) is Duplicate,
        spec_reply_disposition(r) is Duplicate ==> spec_duplicate_turn(map![spec_reply_assembly(r) => r]),
{
    if spec_reply_disposition(r) is Duplicate {
        let m = map![spec_reply_assembly(r) => r];
        assert(m.contains_key(spec_reply_assembly(r)) && m[spec_reply_assembly(r)] == r);
        assert(spec_is_duplicate_reply(m[spec_reply_assembly(r)]));
    }
}

/// The BCM telling back the same turn-request value twice in a row makes the second turn a
/// duplicate turn, whatever the streak held before: the repeat is answered `Duplicate`, and a
/// turn carrying that tell-back publishes nothing.
pub proof fn law_repeated_turn_request_is_a_duplicate_turn(
    s0: BcmActorState,
    s1: BcmActorState,
    s2: BcmActorState,
    message: BcmMessage,
    r1: BcmZoneReply,
    r2: BcmZoneReply,
)
    requires
        message is LeftTurnRequestObserved || message is RightTurnRequestObserved,
        spec_bcm_applied(s0, s1, message, r1),
        spec_bcm_applied(s1, s2, message, r2),
    ensures
        r2.disposition is Duplicate,
        spec_duplicate_turn(map![AssemblyId::Bcm => ZoneReply::Bcm(r2)]),
{
    law_duplicate_reply_is_a_repeat_disposition(ZoneReply::Bcm(r2));
}

/// The SCCM telling back the same hazard-button value twice in a row makes the second turn a
/// duplicate turn, whatever the streak held before.
pub proof fn law_repeated_hazard_observation_is_a_duplicate_turn(
    s0: SccmActorState,
    s1: SccmActorState,
    s2: SccmActorState,
    value: bool,
    r1: SccmZoneReply,
    r2: SccmZoneReply,
)
    requires
        spec_sccm_applied(s0, s1, SccmMessage::HazardButtonObserved(value), r1),
        spec_sccm_applied(s1, s2, SccmMessage::HazardButtonObserved(value), r2),
    ensures
        r2.disposition is Duplicate,
        spec_duplicate_turn(map![AssemblyId::Sccm => ZoneReply::Sccm(r2)]),
{
    law_duplicate_reply_is_a_repeat_disposition(ZoneReply::Sccm(r2));
}

/// Routing and the zone turn agree: whichever zone an event is told to, and with whichever
/// message, the zone turn of that event with no tell-back applies exactly that message to that
/// zone's own state machine. In particular the wiper is told to start when rain begins and to
/// stop when it ends: the routed wiper message is `Start` exactly when the turn leaves it raining.
pub proof fn law_routed_message_is_the_one_the_zone_turn_applies(
    ctx: VehicleContext,
    event: FsmEvent,
    state: FsmState,
    now: Instant,
)
    ensures
        spec_user_event_to_zone_tell(event) is None <==> (event is UpdateRpm || event is PowerOn || event is PowerOff
            || event is Internal || event is TimerTick || event is AssemblyZoneReady),
        ({
            let turn = spec_zone_turn(ctx, event, state, now, Map::<AssemblyId, ZoneReply>::empty());
            &&& spec_user_event_to_zone_tell(event) matches Some((id, ZoneMessage::Wiper(m))) ==> {
                &&& id == AssemblyId::Wiper
                &&& turn.0.wiper == (WiperContext { state: spec_wiper_next(ctx.wiper.state, m) })
                &&& turn.1 == wiper_outcomes_view(spec_wiper_outcomes(ctx.wiper.state, m))
                &&& (m == WiperMessage::Start <==> turn.0.weather.raining)
                &&& (m == WiperMessage::Start || m == WiperMessage::Stop)
            }
            &&& spec_user_event_to_zone_tell(event) matches Some((id, ZoneMessage::Headlamp(m))) ==> {
                &&& id == AssemblyId::Headlamp
                &&& turn.0.headlamp == spec_headlamp_next(ctx.headlamp, m, now)
                &&& turn.1 == headlamp_outcomes_view(spec_headlamp_outcomes(ctx.headlamp, m, now))
            }
            &&& spec_user_event_to_zone_tell(event) matches Some((id, ZoneMessage::Bcm(m))) ==> {
                &&& id == AssemblyId::Bcm
                &&& turn.0.bcm == spec_bcm_next(ctx.bcm, m)
            }
            &&& spec_user_event_to_zone_tell(event) matches Some((id, ZoneMessage::Sccm(m))) ==> {
                &&& id == AssemblyId::Sccm
                &&& turn.0.sccm == spec_sccm_on_message(ctx.sccm, m).ctx
            }
            &&& spec_user_event_to_zone_tell(event) matches Some((id, ZoneMessage::Flcm(m))) ==> {
                &&& id == AssemblyId::Flcm
                &&& turn.0.flcm == spec_flcm_on_message(ctx.flcm, m).ctx
            }
        }),
{
}

/// Mapping an outcome to its domain action keeps its subject and direction: a headlamp
/// request to switch on (off) and only it becomes the request to switch the lamp on (off), a
/// wiper start (stop) and only it becomes the wiper start (stop) request, and a turn-light
/// change becomes the turn-light command with the same two lamps; a zone warning becomes a
/// logged warning with the same text.
pub proof fn law_outcome_action_keeps_direction(o: ZoneOutcomeView, left_on: bool, right_on: bool, text: Seq<char>)
    ensures
        spec_outcome_action(o) == DomainActionView::LogWarning(text)
            <==> (o == ZoneOutcomeView::Headlamp(HeadlampOutcomeView::LogWarning(text))
                || o == ZoneOutcomeView::Wiper(WiperOutcomeView::LogWarning(text))),
        spec_outcome_action(o) == DomainActionView::RequestFrontHeadlampOn
            <==> o == ZoneOutcomeView::Headlamp(HeadlampOutcomeView::RequestOn),
        spec_outcome_action(o) == DomainActionView::RequestFrontHeadlampOff
            <==> o == ZoneOutcomeView::Headlamp(HeadlampOutcomeView::RequestOff),
        spec_outcome_action(o) == DomainActionView::RequestWiperStart
            <==> o == ZoneOutcomeView::Wiper(WiperOutcomeView::StartWiping),
        spec_outcome_action(o) == DomainActionView::RequestWiperStop
            <==> o == ZoneOutcomeView::Wiper(WiperOutcomeView::StopWiping),
        spec_outcome_action(o) == (DomainActionView::SetTurnLights { left_on, right_on })
            <==> o == ZoneOutcomeView::Bcm(BcmOutcome::TurnLightsChanged { left_on, right_on }),
{
}

/// What the headlamp zone asks the actuation path for follows the lamp: the actions of one
/// headlamp message hold the request to switch the lamp on exactly when a ready lamp moved to
/// awaiting its ON acknowledgement, and the request to switch it off exactly when a lit lamp
/// moved to awaiting its OFF acknowledgement.
pub proof fn law_headlamp_requests_follow_the_lamp(hc: HeadlampContext, m: HeadlampMessage, now: Instant)
    ensures
        ({
            let acts = spec_outcome_actions(headlamp_outcomes_view(spec_headlamp_outcomes(hc, m, now)));
            let next = spec_headlamp_next(hc, m, now);
            &&& acts.contains(DomainActionView::RequestFrontHeadlampOn)
                <==> (hc.state == HeadlampState::Ready && next.state == HeadlampState::OnRequested)
            &&& acts.contains(DomainActionView::RequestFrontHeadlampOff)
                <==> (hc.state == HeadlampState::On && next.state == HeadlampState::OffRequested)
        }),
{
    let outs = spec_headlamp_outcomes(hc, m, now);
    let acts = spec_outcome_actions(headlamp_outcomes_view(outs));
    assert(acts.len() == outs.len());
    if outs.len() == 1 {
        assert(acts[0] == spec_outcome_action(ZoneOutcomeView::Headlamp(outs[0])));
        assert(acts =~= seq![acts[0]]);
    } else {
        assert(acts =~= Seq::<DomainActionView>::empty());
    }
}

/// What the wiper zone asks the actuation path for follows the wiper: the actions of one
/// wiper message hold the start request exactly when a ready wiper starts running, and the
/// stop request exactly when a running wiper goes back to ready.
pub proof fn law_wiper_requests_follow_the_wiper(ws: WiperState, m: WiperMessage)
    ensures
        ({
            let acts = spec_outcome_actions(wiper_outcomes_view(spec_wiper_outcomes(ws, m)));
            let next = spec_wiper_next(ws, m);
            &&& acts.contains(DomainActionView::RequestWiperStart)
                <==> (ws == WiperState::Ready && next == WiperState::Running)
            &&& acts.contains(DomainActionView::RequestWiperStop)
                <==> (ws == WiperState::Running && next == WiperState::Ready)
        }),
{
    let outs = spec_wiper_outcomes(ws, m);
    let acts = spec_outcome_actions(wiper_outcomes_view(outs));
    assert(acts.len() == outs.len());
    if outs.len() == 1 {
        assert(acts[0] == spec_outcome_action(ZoneOutcomeView::Wiper(outs[0])));
        assert(acts =~= seq![acts[0]]);
    } else {
        assert(acts =~= Seq::<DomainActionView>::empty());
    }
}

} // verus!
