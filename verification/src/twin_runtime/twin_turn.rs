//! A turn: the zones first, then the operational FSM step, with the zones' outcomes merged in
//! front of the step's actions; at commit, hops repeat until no detector fires.
use vstd::prelude::*;

use crate::fsm::{
    duplicate_actions, spec_step_actions, spec_step_ctx, spec_step_state, step, DomainAction,
    DomainActionView, FsmEvent, FsmState, StepResult,
};
use crate::time::Instant;
use crate::twin_runtime::detectors::{detect_internal_after_hop, spec_detect, AssemblyTopology};
use crate::twin_runtime::outcome_map::{spec_outcome_actions, zone_outcomes_to_domain_actions};
use crate::twin_runtime::zone_replies::ZoneReplies;
use crate::twin_runtime::zone_turn::{spec_zone_turn, zone_turn};
use crate::digital_twin::ZoneReply;
use crate::fsm::AssemblyId;
use crate::fsm::step::{ledger_actions, spec_ledger_actions};
use crate::vehicle_state::{ObservationDisposition, VehicleContext};

verus! {

/// Upper bound on the hops of one committed turn.
pub const MAX_QUIESCENCE_HOPS: usize = 8;

/// One ledger row inside a quiescent turn.
#[derive(Debug, Clone, PartialEq)]
pub struct HopRecord {
    pub event: FsmEvent,
    pub result: StepResult,
}

/// A committed turn: one or more hops.
#[derive(Debug, Clone, PartialEq)]
pub struct QuiescentResult {
    pub hops: Vec<HopRecord>,
}

/// A turn whose zone tell-backs are complete, ready to commit.
#[derive(Debug, Clone)]
pub struct ResolvedTurn {
    pub ingress: FsmEvent,
    pub now: Instant,
    pub zone_replies: ZoneReplies,
}

/// `r` is the step of `event` from `state`/`ctx` at `now` on an already-merged context.
pub open spec fn spec_internal_hop(state: FsmState, ctx: VehicleContext, event: FsmEvent, now: Instant, r: StepResult) -> bool {
    &&& r.next_state == spec_step_state(state, ctx, event, now)
    &&& r.modified_ctx == spec_step_ctx(ctx)
    &&& r.actions.deep_view() == spec_step_actions(state, ctx, event, now)
    &&& r.transition_record.at == now
    &&& r.transition_record.event == event
    &&& r.transition_record.old_state == state
    &&& r.transition_record.next_state == r.next_state
    &&& r.transition_record.old_ctx == ctx
    &&& r.transition_record.current_ctx == r.modified_ctx
    &&& r.transition_record.actions.deep_view() == spec_ledger_actions(r.actions.deep_view())
}

/// `r` is the external hop of `event`: the zones merge `replies` (or run locally), then the FSM
/// steps on the merged context; the zones' actions come first, and the ledger row leaves out
/// coordination hints.
pub open spec fn spec_external_hop(
    state: FsmState,
    ctx: VehicleContext,
    event: FsmEvent,
    now: Instant,
    replies: Map<AssemblyId, ZoneReply>,
    r: StepResult,
) -> bool {
    let z = spec_zone_turn(ctx, event, state, now, replies);
    &&& r.next_state == spec_step_state(state, z.0, event, now)
    &&& r.modified_ctx == spec_step_ctx(z.0)
    &&& r.actions.deep_view() == spec_outcome_actions(z.1) + spec_step_actions(state, z.0, event, now)
    &&& r.transition_record.at == now
    &&& r.transition_record.event == event
    &&& r.transition_record.old_state == state
    &&& r.transition_record.next_state == r.next_state
    &&& r.transition_record.old_ctx == z.0
    &&& r.transition_record.current_ctx == r.modified_ctx
    &&& r.transition_record.actions.deep_view() == spec_ledger_actions(r.actions.deep_view())
}

/// `r` is the hop of `event`: internal events step directly, others go through the zones.
pub open spec fn spec_hop(
    state: FsmState,
    ctx: VehicleContext,
    event: FsmEvent,
    now: Instant,
    replies: Map<AssemblyId, ZoneReply>,
    r: StepResult,
) -> bool {
    if event is Internal {
        spec_internal_hop(state, ctx, event, now, r)
    } else {
        spec_external_hop(state, ctx, event, now, replies, r)
    }
}

/// Append `tail` to `head`, keeping the order.
fn concat_actions(head: Vec<DomainAction>, tail: Vec<DomainAction>) -> (r: Vec<DomainAction>)
    ensures
        r.deep_view() == head.deep_view() + tail.deep_view(),
{
    let mut r = head;
    let mut t = tail;
    r.append(&mut t);
    proof {
        assert(r.deep_view() =~= head.deep_view() + tail.deep_view());
    }
    r
}

/// One external hop: zone merge (tell-back or local zone), then the FSM step.
fn apply_external_hop(
    current_state: &FsmState,
    current_ctx: &VehicleContext,
    event: &FsmEvent,
    now: Instant,
    zone_replies: &ZoneReplies,
) -> (r: StepResult)
    ensures
        spec_external_hop(*current_state, *current_ctx, *event, now, zone_replies@, r),
{
    let zone = zone_turn(current_ctx, event, current_state, now, zone_replies);
    let zone_ctx = zone.ctx;
    let mut result = step(current_state, &zone_ctx, event, now);
    let zone_actions = zone_outcomes_to_domain_actions(zone.outcomes);
    let step_actions = result.actions;
    result.actions = concat_actions(zone_actions, step_actions);
    result.transition_record.actions = ledger_actions(&result.actions);
    result
}

/// One hop of a committed turn.
fn apply_single_hop(
    current_state: &FsmState,
    current_ctx: &VehicleContext,
    event: &FsmEvent,
    now: Instant,
    zone_replies: &ZoneReplies,
) -> (r: StepResult)
    ensures
        spec_hop(*current_state, *current_ctx, *event, now, zone_replies@, r),
{
    if matches!(event, FsmEvent::Internal(_)) {
        step(current_state, current_ctx, event, now)
    } else {
        apply_external_hop(current_state, current_ctx, event, now, zone_replies)
    }
}

/// A full deterministic turn with every zone simulated locally.
pub fn twin_turn(current_state: &FsmState, current_ctx: &VehicleContext, event: &FsmEvent, now: Instant) -> (r: StepResult)
    ensures
        spec_external_hop(
            *current_state,
            *current_ctx,
            *event,
            now,
            Map::<AssemblyId, ZoneReply>::empty(),
            r,
        ),
{
    apply_external_hop(current_state, current_ctx, event, now, &ZoneReplies::simulate_locally())
}

/// The mode the `k`-th hop of `hops` starts from.
pub open spec fn spec_hop_start_state(initial: FsmState, hops: Seq<HopRecord>, k: int) -> FsmState {
    if k == 0 {
        initial
    } else {
        hops[k - 1].result.next_state
    }
}

/// The context the `k`-th hop of `hops` starts from.
pub open spec fn spec_hop_start_ctx(initial: VehicleContext, hops: Seq<HopRecord>, k: int) -> VehicleContext {
    if k == 0 {
        initial
    } else {
        hops[k - 1].result.modified_ctx
    }
}

/// `r` reports an observation its zone had already seen (the same value again).
pub open spec fn spec_is_duplicate_reply(r: ZoneReply) -> bool {
    match r {
        ZoneReply::Sccm(x) => x.disposition is Duplicate,
        ZoneReply::Bcm(x) => x.disposition is Duplicate,
        ZoneReply::Flcm(x) => x.disposition is Duplicate,
        _ => false,
    }
}

/// The turn's observing zone replied that the observation is a duplicate.
pub open spec fn spec_duplicate_turn(replies: Map<AssemblyId, ZoneReply>) -> bool {
    exists|id: AssemblyId| replies.contains_key(id) && #[trigger] spec_is_duplicate_reply(replies[id])
}

fn reply_is_duplicate(replies: &ZoneReplies, id: AssemblyId) -> (b: bool)
    ensures
        b == (replies@.contains_key(id) && spec_is_duplicate_reply(replies@[id])),
{
    match replies.get(&id) {
        Some(r) => matches!(r.disposition(), ObservationDisposition::Duplicate { .. }),
        None => false,
    }
}

/// Whether the turn's observing zone replied that the observation is a duplicate.
pub fn is_duplicate_turn(replies: &ZoneReplies) -> (b: bool)
    ensures
        b == spec_duplicate_turn(replies@),
{
    let b = reply_is_duplicate(replies, AssemblyId::Sccm) || reply_is_duplicate(replies, AssemblyId::Bcm)
        || reply_is_duplicate(replies, AssemblyId::Flcm) || reply_is_duplicate(replies, AssemblyId::Headlamp)
        || reply_is_duplicate(replies, AssemblyId::Wiper);
    proof {
        if !b {
            assert forall|id: AssemblyId| !(replies@.contains_key(id) && #[trigger] spec_is_duplicate_reply(replies@[id])) by {
                match id {
                    AssemblyId::Sccm => {},
                    AssemblyId::Bcm => {},
                    AssemblyId::Flcm => {},
                    AssemblyId::Headlamp => {},
                    AssemblyId::Wiper => {},
                }
            }
        }
    }
    b
}

/// `hops` is the committed turn of `ingress`: the first hop takes the ingress with the turn's
/// tell-backs, each later hop takes the event the detectors raised on the previous exit cut
/// (with no tell-backs), and the turn stops when no detector fires or the hop budget is spent.
pub open spec fn spec_quiescent(
    initial_state: FsmState,
    initial_ctx: VehicleContext,
    ingress: FsmEvent,
    now: Instant,
    replies: Map<AssemblyId, ZoneReply>,
    topology: AssemblyTopology,
    hops: Seq<HopRecord>,
) -> bool {
    &&& 1 <= hops.len() <= MAX_QUIESCENCE_HOPS
    &&& hops[0].event == ingress
    &&& forall|k: int|
        0 <= k < hops.len() ==> spec_hop(
            spec_hop_start_state(initial_state, hops, k),
            spec_hop_start_ctx(initial_ctx, hops, k),
            #[trigger] hops[k].event,
            now,
            if k == 0 {
                replies
            } else {
                Map::<AssemblyId, ZoneReply>::empty()
            },
            hops[k].result,
        )
    &&& forall|k: int|
        0 <= k < hops.len() - 1 ==> spec_detect(
            #[trigger] hops[k].result.next_state,
            hops[k].result.modified_ctx,
            topology,
        ) == Some(hops[k + 1].event)
    &&& (hops.len() == MAX_QUIESCENCE_HOPS || spec_detect(
        hops.last().result.next_state,
        hops.last().result.modified_ctx,
        topology,
    ) is None)
}

/// The mandatory quiescence loop: the ingress hop, then one hop per detector-synthesized
/// internal event, at most [`MAX_QUIESCENCE_HOPS`] hops in all.
pub fn run_to_quiescence(
    initial_state: &FsmState,
    initial_ctx: &VehicleContext,
    ingress: &FsmEvent,
    now: Instant,
    zone_replies: &ZoneReplies,
    assembly_topology: AssemblyTopology,
) -> (r: QuiescentResult)
    ensures
        spec_quiescent(
            *initial_state,
            *initial_ctx,
            *ingress,
            now,
            zone_replies@,
            assembly_topology,
            r.hops@,
        ),
{
    let mut pending: Option<FsmEvent> = Some(*ingress);
    let mut state = *initial_state;
    let mut ctx = *initial_ctx;
    let mut hops: Vec<HopRecord> = Vec::new();
    let no_replies = ZoneReplies::simulate_locally();
    while hops.len() < MAX_QUIESCENCE_HOPS && pending.is_some()
        invariant
            hops@.len() <= MAX_QUIESCENCE_HOPS,
            no_replies@ == Map::<AssemblyId, ZoneReply>::empty(),
            hops@.len() == 0 ==> pending == Some(*ingress) && state == *initial_state && ctx
                == *initial_ctx,
            hops@.len() > 0 ==> {
                &&& hops@[0].event == *ingress
                &&& state == hops@.last().result.next_state
                &&& ctx == hops@.last().result.modified_ctx
                &&& pending == spec_detect(state, ctx, assembly_topology)
            },
            forall|k: int|
                0 <= k < hops@.len() ==> spec_hop(
                    spec_hop_start_state(*initial_state, hops@, k),
                    spec_hop_start_ctx(*initial_ctx, hops@, k),
                    #[trigger] hops@[k].event,
                    now,
                    if k == 0 {
                        zone_replies@
                    } else {
                        Map::<AssemblyId, ZoneReply>::empty()
                    },
                    hops@[k].result,
                ),
            forall|k: int|
                0 <= k < hops@.len() - 1 ==> spec_detect(
                    #[trigger] hops@[k].result.next_state,
                    hops@[k].result.modified_ctx,
                    assembly_topology,
                ) == Some(hops@[k + 1].event),
        decreases MAX_QUIESCENCE_HOPS - hops@.len(),
    {
        let event = match pending {
            Some(e) => e,
            None => {
                assert(false);
                FsmEvent::TimerTick
            },
        };
        let is_first = hops.len() == 0;
        let result = if is_first {
            apply_single_hop(&state, &ctx, &event, now, zone_replies)
        } else {
            apply_single_hop(&state, &ctx, &event, now, &no_replies)
        };
        pending = detect_internal_after_hop(&result.next_state, &result.modified_ctx, assembly_topology);
        state = result.next_state;
        ctx = result.modified_ctx;
        let ghost before = hops@;
        hops.push(HopRecord { event, result });
        proof {
            assert forall|k: int| 0 <= k < hops@.len() implies #[trigger] hops@[k] == if k < before.len() {
                before[k]
            } else {
                hops@.last()
            } by {}
            assert forall|k: int|
                0 <= k < hops@.len() implies spec_hop(
                    spec_hop_start_state(*initial_state, hops@, k),
                    spec_hop_start_ctx(*initial_ctx, hops@, k),
                    #[trigger] hops@[k].event,
                    now,
                    if k == 0 {
                        zone_replies@
                    } else {
                        Map::<AssemblyId, ZoneReply>::empty()
                    },
                    hops@[k].result,
                ) by {
                if k < before.len() {
                    assert(spec_hop_start_state(*initial_state, hops@, k) == spec_hop_start_state(
                        *initial_state,
                        before,
                        k,
                    ));
                    assert(spec_hop_start_ctx(*initial_ctx, hops@, k) == spec_hop_start_ctx(
                        *initial_ctx,
                        before,
                        k,
                    ));
                }
            }
        }
    }
    QuiescentResult { hops }
}

/// Commit a resolved turn: quiescence from the twin's current mode and context.
pub fn commit_resolved_turn(
    initial_state: &FsmState,
    initial_ctx: &VehicleContext,
    resolved: ResolvedTurn,
    assembly_topology: AssemblyTopology,
) -> (r: QuiescentResult)
    ensures
        spec_quiescent(
            *initial_state,
            *initial_ctx,
            resolved.ingress,
            resolved.now,
            resolved.zone_replies@,
            assembly_topology,
            r.hops@,
        ),
{
    run_to_quiescence(
        initial_state,
        initial_ctx,
        &resolved.ingress,
        resolved.now,
        &resolved.zone_replies,
        assembly_topology,
    )
}

/// All actions of a list of hops, in hop order.
pub open spec fn spec_merged(hops: Seq<HopRecord>) -> Seq<DomainActionView>
    decreases hops.len(),
{
    if hops.len() == 0 {
        Seq::empty()
    } else {
        spec_merged(hops.drop_last()) + hops.last().result.actions.deep_view()
    }
}

impl QuiescentResult {
    /// The last hop's step.
    pub fn final_step(&self) -> (s: &StepResult)
        requires
            self.hops@.len() > 0,
        ensures
            *s == self.hops@.last().result,
    {
        &self.hops[self.hops.len() - 1].result
    }

    /// Every hop's actions, in hop order.
    pub fn merged_actions(&self) -> (actions: Vec<DomainAction>)
        ensures
            actions.deep_view() == spec_merged(self.hops@),
    {
        let mut actions: Vec<DomainAction> = Vec::new();
        let mut i: usize = 0;
        while i < self.hops.len()
            invariant
                i <= self.hops@.len(),
                actions.deep_view() == spec_merged(self.hops@.take(i as int)),
            decreases self.hops@.len() - i,
        {
            proof {
                assert(self.hops@.take(i + 1).drop_last() =~= self.hops@.take(i as int));
            }
            let more = duplicate_actions(&self.hops[i].result.actions);
            actions = concat_actions(actions, more);
            i = i + 1;
        }
        proof {
            assert(self.hops@.take(i as int) =~= self.hops@);
        }
        actions
    }
}

} // verus!
