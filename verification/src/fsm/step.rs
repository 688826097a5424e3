//! One FSM step: refresh the kinematics, apply the transition table, map the table's actions to
//! domain actions and record the whole turn.
use vstd::prelude::*;

use super::machineries::{
    copy_ids, DomainAction, DomainActionView, FsmAction,
    FsmActionView, FsmEvent, FsmState,
};
use super::transition_map::{output, spec_output, spec_transition, transition, TransitionNote};
use crate::time::Instant;
use crate::vehicle_physics::speed_from_rpm;
use crate::vehicle_state::VehicleContext;

verus! {

/// The pure record of one FSM step, before projection for the outside world.
#[derive(Debug, Clone, PartialEq)]
pub struct RawTransitionRecord {
    pub at: Instant,
    pub event: FsmEvent,
    pub old_state: FsmState,
    pub next_state: FsmState,
    pub old_ctx: VehicleContext,
    pub current_ctx: VehicleContext,
    pub actions: Vec<DomainAction>,
}

/// Everything one step produced.
#[derive(Debug, Clone, PartialEq)]
pub struct StepResult {
    pub next_state: FsmState,
    pub modified_ctx: VehicleContext,
    pub actions: Vec<DomainAction>,
    pub transition_record: RawTransitionRecord,
}

/// The domain action a table action stands for; `Nothing` stands for none.
pub open spec fn spec_lift_action(a: FsmActionView) -> Seq<DomainActionView> {
    match a {
        FsmActionView::StartBuzzer => seq![DomainActionView::StartBuzzer],
        FsmActionView::StopBuzzer => seq![DomainActionView::StopBuzzer],
        FsmActionView::LogWarning(text) => seq![DomainActionView::LogWarning(text)],
        FsmActionView::PublishStateSync => seq![DomainActionView::PublishStateSync],
        FsmActionView::StartAssemblies(ids) => seq![DomainActionView::StartAssemblies(ids)],
        FsmActionView::StopAssemblies(ids) => seq![DomainActionView::StopAssemblies(ids)],
        FsmActionView::Nothing => Seq::empty(),
    }
}

/// The domain actions a list of table actions stands for, in order.
pub open spec fn spec_lift_actions(s: Seq<FsmActionView>) -> Seq<DomainActionView>
    decreases s.len(),
{
    if s.len() == 0 {
        Seq::empty()
    } else {
        spec_lift_actions(s.drop_last()) + spec_lift_action(s.last())
    }
}

/// The name a mode is reported under.
pub open spec fn spec_state_name(state: FsmState) -> Seq<char> {
    match state {
        FsmState::Off => "Off"@,
        FsmState::PreparingToStart(_) => "PreparingToStart"@,
        FsmState::Idle => "Idle"@,
        FsmState::Driving => "Driving"@,
        FsmState::DrivingDangerously => "DrivingDangerously"@,
        FsmState::ExtremeOperationWarning(_) => "ExtremeOperationWarning"@,
        FsmState::PreparingToStop(_) => "PreparingToStop"@,
    }
}

/// Warning text for a rejected power-off in `state`.
pub open spec fn spec_rejected_power_off_text(state: FsmState) -> Seq<char> {
    "[REJECTED]: vehicle must be Idle before PowerOff; current state is "@ + spec_state_name(state)
}

/// The context a step works on: the input with its road speed recomputed from the wheels.
pub open spec fn spec_step_ctx(ctx: VehicleContext) -> VehicleContext {
    VehicleContext {
        powertrain: crate::vehicle_state::PowertrainContext {
            speed_kph: speed_from_rpm(ctx.powertrain.spec_primary_rpm()),
            ..ctx.powertrain
        },
        ..ctx
    }
}

/// The next mode of a step.
pub open spec fn spec_step_state(state: FsmState, ctx: VehicleContext, event: FsmEvent, now: Instant) -> FsmState {
    spec_transition(state, event, spec_step_ctx(ctx), now).next_state
}

/// The domain actions of a step: the table's actions for the move, then a warning when a
/// power-off was rejected.
pub open spec fn spec_step_actions(state: FsmState, ctx: VehicleContext, event: FsmEvent, now: Instant) -> Seq<DomainActionView> {
    let c = spec_step_ctx(ctx);
    let t = spec_transition(state, event, c, now);
    let lifted = spec_lift_actions(spec_output(state, t.next_state, c));
    if t.note == Some(TransitionNote::RejectedPowerOff) {
        lifted.push(DomainActionView::LogWarning(spec_rejected_power_off_text(state)))
    } else {
        lifted
    }
}

/// The actions the ledger records: coordination hints are left out.
pub open spec fn spec_ledger_actions(s: Seq<DomainActionView>) -> Seq<DomainActionView> {
    s.filter(|a: DomainActionView| !(a is StartAssemblies || a is StopAssemblies))
}

/// The ledger copy of `actions`: everything but coordination hints, in order.
pub fn ledger_actions(actions: &Vec<DomainAction>) -> (r: Vec<DomainAction>)
    ensures
        r.deep_view() == spec_ledger_actions(actions.deep_view()),
{
    let mut r: Vec<DomainAction> = Vec::new();
    let mut i: usize = 0;
    while i < actions.len()
        invariant
            i <= actions.len(),
            r.deep_view() == spec_ledger_actions(actions.deep_view().take(i as int)),
        decreases actions.len() - i,
    {
        let ghost before = r.deep_view();
        proof {
            let s = actions.deep_view().take(i + 1);
            assert(s.drop_last() =~= actions.deep_view().take(i as int));
            assert(s.last() == actions@[i as int].deep_view());
            reveal_with_fuel(Seq::filter, 1);
        }
        if !actions[i].is_coordination() {
            let a = actions[i].duplicate();
            r.push(a);
            proof {
                assert(r.deep_view() =~= before.push(a.deep_view()));
            }
        }
        i = i + 1;
    }
    proof {
        assert(actions.deep_view().take(i as int) =~= actions.deep_view());
    }
    r
}

fn lift_action(a: &FsmAction) -> (r: Option<DomainAction>)
    ensures
        match r {
            Some(d) => seq![d.deep_view()] == spec_lift_action(a.deep_view()),
            None => spec_lift_action(a.deep_view()) == Seq::<DomainActionView>::empty(),
        },
{
    match a {
        FsmAction::StartBuzzer => Some(DomainAction::StartBuzzer),
        FsmAction::StopBuzzer => Some(DomainAction::StopBuzzer),
        FsmAction::LogWarning(text) => Some(DomainAction::LogWarning(text.clone())),
        FsmAction::PublishStateSync => Some(DomainAction::PublishStateSync),
        FsmAction::StartAssemblies(ids) => Some(DomainAction::StartAssemblies(copy_ids(ids))),
        FsmAction::StopAssemblies(ids) => Some(DomainAction::StopAssemblies(copy_ids(ids))),
        FsmAction::Nothing => None,
    }
}

/// Map table actions to domain actions, dropping `Nothing`.
pub fn lift_actions(fsm_actions: &Vec<FsmAction>) -> (r: Vec<DomainAction>)
    ensures
        r.deep_view() == spec_lift_actions(fsm_actions.deep_view()),
{
    let mut r: Vec<DomainAction> = Vec::new();
    let mut i: usize = 0;
    while i < fsm_actions.len()
        invariant
            i <= fsm_actions.len(),
            r.deep_view() == spec_lift_actions(fsm_actions.deep_view().take(i as int)),
        decreases fsm_actions.len() - i,
    {
        let ghost before = r.deep_view();
        proof {
            let s = fsm_actions.deep_view().take(i + 1);
            assert(s.drop_last() =~= fsm_actions.deep_view().take(i as int));
            assert(s.last() == fsm_actions@[i as int].deep_view());
        }
        match lift_action(&fsm_actions[i]) {
            Some(d) => {
                r.push(d);
                proof {
                    assert(r.deep_view() =~= before + seq![d.deep_view()]);
                }
            },
            None => {
                proof {
                    assert(before + Seq::<DomainActionView>::empty() =~= before);
                }
            },
        }
        i = i + 1;
    }
    proof {
        assert(fsm_actions.deep_view().take(i as int) =~= fsm_actions.deep_view());
    }
    r
}

fn state_name(state: &FsmState) -> (s: &'static str)
    ensures
        s@ == spec_state_name(*state),
{
    match state {
        FsmState::Off => "Off",
        FsmState::PreparingToStart(_) => "PreparingToStart",
        FsmState::Idle => "Idle",
        FsmState::Driving => "Driving",
        FsmState::DrivingDangerously => "DrivingDangerously",
        FsmState::ExtremeOperationWarning(_) => "ExtremeOperationWarning",
        FsmState::PreparingToStop(_) => "PreparingToStop",
    }
}

fn rejected_power_off_warning(state: &FsmState) -> (s: String)
    ensures
        s@ == spec_rejected_power_off_text(*state),
{
    let prefix = String::from_str("[REJECTED]: vehicle must be Idle before PowerOff; current state is ");
    prefix.concat(state_name(state))
}

/// One FSM step at time `now`.
///
/// The road speed is recomputed from the wheels, the transition table picks the next mode,
/// the table's actions for the move become domain actions (with a warning appended when a
/// power-off is rejected), and the record carries the old and new mode and context with the
/// same actions, less the coordination hints (`StartAssemblies` / `StopAssemblies`), which are
/// for the runtime and not part of the ledger.
pub fn step(current_state: &FsmState, current_ctx: &VehicleContext, event: &FsmEvent, now: Instant) -> (r: StepResult)
    ensures
        r.next_state == spec_step_state(*current_state, *current_ctx, *event, now),
        r.modified_ctx == spec_step_ctx(*current_ctx),
        r.actions.deep_view() == spec_step_actions(*current_state, *current_ctx, *event, now),
        r.transition_record.at == now,
        r.transition_record.event == *event,
        r.transition_record.old_state == *current_state,
        r.transition_record.next_state == r.next_state,
        r.transition_record.old_ctx == *current_ctx,
        r.transition_record.current_ctx == r.modified_ctx,
        r.transition_record.actions.deep_view() == spec_ledger_actions(r.actions.deep_view()),
{
    let mut ctx = *current_ctx;
    ctx.powertrain.refresh_speed();
    let t = transition(current_state, event, &ctx, now);
    let fsm_actions = output(current_state, &t.next_state, &ctx);
    let mut actions = lift_actions(&fsm_actions);
    match t.note {
        Some(TransitionNote::RejectedPowerOff) => {
            actions.push(DomainAction::LogWarning(rejected_power_off_warning(current_state)));
        },
        None => {},
    }
    proof {
        assert(actions.deep_view() =~= spec_step_actions(*current_state, *current_ctx, *event, now));
    }
    let recorded = ledger_actions(&actions);
    StepResult {
        next_state: t.next_state,
        modified_ctx: ctx,
        actions,
        transition_record: RawTransitionRecord {
            at: now,
            event: *event,
            old_state: *current_state,
            next_state: t.next_state,
            old_ctx: *current_ctx,
            current_ctx: ctx,
            actions: recorded,
        },
    }
}

} // verus!
