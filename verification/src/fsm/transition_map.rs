//! Operational mode transition table and the actions each transition asks for.
//!
//! Human table:
//! - Off + PowerOn (healthy context) -> PreparingToStart(all lifecycle assemblies)
//! - PreparingToStart(s) + AssemblyZoneReady(a) -> PreparingToStart(s - a), or Idle once empty
//! - PreparingToStart + anything else -> unchanged
//! - Idle + PowerOff -> PreparingToStop(all lifecycle assemblies)
//! - Idle + UpdateRpm(rpm above the driving threshold) -> Driving
//! - Driving + LightingUnsafe -> DrivingDangerously
//! - Driving + operational warning -> ExtremeOperationWarning(now); standing still -> Idle
//! - DrivingDangerously: standing still -> Idle; lamp on or bright ambient -> Driving
//! - ExtremeOperationWarning: standing still waives the cooldown (PowerOff -> PreparingToStop,
//!   anything else -> Idle); TimerTick after the cooldown with the warning cleared -> Driving
//! - PreparingToStop(s) + AssemblyZoneReady(a) -> PreparingToStop(s - a), or Off once empty
//! - PowerOff outside Idle (and outside a standing warning) is rejected with a note
//! - In Idle, Driving, DrivingDangerously and ExtremeOperationWarning the hazard-button
//!   observation, the low-beam status reports and the FLCM silence verdict stay, ahead of every
//!   context-derived guard: those arrive at a high rate and must not nudge the mode
//! - Everything else -> stay
use vstd::prelude::*;

use super::machineries::{
    all_assemblies, spec_all_assemblies, AssemblyId, AssemblySet, FsmAction, FsmActionView,
    FsmEvent, FsmState, Operational,
};
use crate::time::{Duration, Instant};
use crate::vehicle_physics::{
    extreme_operation_active, spec_extreme_operation_active, spec_speed_threshold_exceeded,
    speed_threshold_exceeded, EXTREME_OPERATION_WARNING_MESSAGE, LUX_ON_THRESHOLD,
    RPM_DRIVING_THRESHOLD, RPM_STRESS_DURATION_THRESHOLD_SECS, SPEED_THRESHOLD_WARNING_MESSAGE,
};
use crate::vehicle_state::{HeadlampState, VehicleContext};

verus! {

broadcast use AssemblySet::lemma_without_view, AssemblySet::lemma_lifecycle_set_view;

/// A noteworthy non-transition the caller may want to log.
#[derive(Debug, Clone, Copy, PartialEq, Eq)]
pub enum TransitionNote {
    RejectedPowerOff,
}

/// The next mode and an optional note about a rejected request.
#[derive(Debug, Clone, Copy, PartialEq, Eq)]
pub struct TransitionResult {
    pub next_state: FsmState,
    pub note: Option<TransitionNote>,
}

/// Whether the warning has lasted the cooldown and the thresholds are clear again.
pub open spec fn spec_recovery_ready(began_at: Instant, now: Instant, ctx: VehicleContext) -> bool {
    let age = if now@ >= began_at@ {
        now@ - began_at@
    } else {
        0
    };
    age >= RPM_STRESS_DURATION_THRESHOLD_SECS * 1_000_000_000
        && !ctx.powertrain.spec_warning_active()
}

/// A countdown step: drop `id` from `remaining`; `done` once nothing remains.
pub open spec fn spec_countdown(
    remaining: AssemblySet,
    id: AssemblyId,
    done: FsmState,
    waiting: spec_fn(AssemblySet) -> FsmState,
) -> FsmState {
    let rest = remaining.without(id);
    if rest@ == Set::<AssemblyId>::empty() {
        done
    } else {
        waiting(rest)
    }
}

/// An observation that never moves an active mode: the hazard-button observation, a low-beam
/// status report or the FLCM silence verdict. It updates the context through its zone only.
pub open spec fn spec_is_observation(event: FsmEvent) -> bool {
    match event {
        FsmEvent::HazardButtonObserved(_) => true,
        FsmEvent::LeftLowBeamStatusObserved(_) => true,
        FsmEvent::RightLowBeamStatusObserved(_) => true,
        FsmEvent::AssemblyZoneReady(id) => id == AssemblyId::Flcm,
        _ => false,
    }
}

/// Whether `event` is an observation that never moves an active mode.
pub fn is_observation(event: &FsmEvent) -> (b: bool)
    ensures
        b == spec_is_observation(*event),
{
    match event {
        FsmEvent::HazardButtonObserved(_) => true,
        FsmEvent::LeftLowBeamStatusObserved(_) => true,
        FsmEvent::RightLowBeamStatusObserved(_) => true,
        FsmEvent::AssemblyZoneReady(id) => matches!(id, AssemblyId::Flcm),
        _ => false,
    }
}

/// The transition table.
pub open spec fn spec_transition(
    state: FsmState,
    event: FsmEvent,
    ctx: VehicleContext,
    now: Instant,
) -> TransitionResult {
    let stay = TransitionResult { next_state: state, note: None };
    let reject = TransitionResult {
        next_state: state,
        note: Some(TransitionNote::RejectedPowerOff),
    };
    let go = |s: FsmState| TransitionResult { next_state: s, note: None };
    let all = AssemblySet::spec_lifecycle_set();
    let stationary = ctx.powertrain.spec_is_stationary();
    match state {
        FsmState::Off => match event {
            FsmEvent::PowerOn => if ctx.spec_is_healthy() {
                go(FsmState::PreparingToStart(all))
            } else {
                stay
            },
            FsmEvent::PowerOff => reject,
            _ => stay,
        },
        FsmState::PreparingToStart(remaining) => match event {
            FsmEvent::AssemblyZoneReady(id) => go(
                spec_countdown(
                    remaining,
                    id,
                    FsmState::Idle,
                    |s: AssemblySet| FsmState::PreparingToStart(s),
                ),
            ),
            _ => stay,
        },
        FsmState::Idle => if spec_is_observation(event) {
            stay
        } else {
            match event {
                FsmEvent::PowerOff => go(FsmState::PreparingToStop(all)),
                FsmEvent::UpdateRpm(rpm) => if rpm > RPM_DRIVING_THRESHOLD {
                    go(FsmState::Driving)
                } else {
                    stay
                },
                _ => stay,
            }
        },
        FsmState::Driving => if spec_is_observation(event) {
            stay
        } else {
            match event {
                FsmEvent::HazardButtonChanged(_) => stay,
                FsmEvent::Internal(Operational::LightingUnsafe) => go(FsmState::DrivingDangerously),
                FsmEvent::PowerOff => reject,
                _ => if ctx.powertrain.spec_warning_active() {
                    go(FsmState::ExtremeOperationWarning(now))
                } else if stationary {
                    go(FsmState::Idle)
                } else {
                    stay
                },
            }
        },
        FsmState::DrivingDangerously => if spec_is_observation(event) {
            stay
        } else {
            match event {
                FsmEvent::HazardButtonChanged(_) => stay,
                FsmEvent::PowerOff => reject,
                _ => if stationary {
                    go(FsmState::Idle)
                } else if ctx.headlamp.state == HeadlampState::On {
                    go(FsmState::Driving)
                } else if ctx.visibility.ambient_lux > LUX_ON_THRESHOLD {
                    go(FsmState::Driving)
                } else {
                    stay
                },
            }
        },
        FsmState::ExtremeOperationWarning(began_at) => if spec_is_observation(event) {
            stay
        } else {
            match event {
                FsmEvent::HazardButtonChanged(_) => stay,
                FsmEvent::PowerOff => if stationary {
                    go(FsmState::PreparingToStop(all))
                } else {
                    reject
                },
                FsmEvent::TimerTick => if stationary {
                    go(FsmState::Idle)
                } else if spec_recovery_ready(began_at, now, ctx) {
                    go(FsmState::Driving)
                } else {
                    stay
                },
                _ => if stationary {
                    go(FsmState::Idle)
                } else {
                    stay
                },
            }
        },
        FsmState::PreparingToStop(remaining) => match event {
            FsmEvent::AssemblyZoneReady(id) => go(
                spec_countdown(
                    remaining,
                    id,
                    FsmState::Off,
                    |s: AssemblySet| FsmState::PreparingToStop(s),
                ),
            ),
            _ => stay,
        },
    }
}

/// Whether a warning that began at `began_at` may clear at `now`: it has lasted at least
/// [`RPM_STRESS_DURATION_THRESHOLD_SECS`] and the thresholds are no longer exceeded.
pub fn operational_warning_recovery_ready(
    began_at: Instant,
    now: Instant,
    ctx: &VehicleContext,
) -> (b: bool)
    ensures
        b == spec_recovery_ready(began_at, now, *ctx),
{
    let warning_age = match now.checked_duration_since(&began_at) {
        Some(age) => age,
        None => Duration::zero(),
    };
    warning_age.at_least(&Duration::from_secs(RPM_STRESS_DURATION_THRESHOLD_SECS))
        && !ctx.powertrain.is_operational_warning_active()
}

/// Apply the operational mode transition table. Pure: no I/O; a rejected power-off is
/// reported as a note.
pub fn transition(
    current_state: &FsmState,
    event: &FsmEvent,
    current_ctx: &VehicleContext,
    now: Instant,
) -> (r: TransitionResult)
    ensures
        r == spec_transition(*current_state, *event, *current_ctx, now),
{
    let stay = TransitionResult { next_state: *current_state, note: None };
    let reject = TransitionResult {
        next_state: *current_state,
        note: Some(TransitionNote::RejectedPowerOff),
    };
    let stationary = current_ctx.powertrain.is_stationary();
    match current_state {
        FsmState::Off => match event {
            FsmEvent::PowerOn => if current_ctx.is_healthy() {
                TransitionResult {
                    next_state: FsmState::PreparingToStart(AssemblySet::lifecycle_set()),
                    note: None,
                }
            } else {
                stay
            },
            FsmEvent::PowerOff => reject,
            _ => stay,
        },
        FsmState::PreparingToStart(remaining) => match event {
            FsmEvent::AssemblyZoneReady(id) => {
                let mut rest = *remaining;
                rest.remove(*id);
                if rest.is_empty() {
                    TransitionResult { next_state: FsmState::Idle, note: None }
                } else {
                    TransitionResult { next_state: FsmState::PreparingToStart(rest), note: None }
                }
            },
            _ => stay,
        },
        FsmState::Idle => if is_observation(event) {
            stay
        } else {
            match event {
                FsmEvent::PowerOff => TransitionResult {
                    next_state: FsmState::PreparingToStop(AssemblySet::lifecycle_set()),
                    note: None,
                },
                FsmEvent::UpdateRpm(rpm) => if *rpm > RPM_DRIVING_THRESHOLD {
                    TransitionResult { next_state: FsmState::Driving, note: None }
                } else {
                    stay
                },
                _ => stay,
            }
        },
        FsmState::Driving => if is_observation(event) {
            stay
        } else {
            match event {
                FsmEvent::HazardButtonChanged(_) => stay,
                FsmEvent::Internal(Operational::LightingUnsafe) => TransitionResult {
                    next_state: FsmState::DrivingDangerously,
                    note: None,
                },
                FsmEvent::PowerOff => reject,
                _ => if current_ctx.powertrain.is_operational_warning_active() {
                    TransitionResult { next_state: FsmState::ExtremeOperationWarning(now), note: None }
                } else if stationary {
                    TransitionResult { next_state: FsmState::Idle, note: None }
                } else {
                    stay
                },
            }
        },
        FsmState::DrivingDangerously => if is_observation(event) {
            stay
        } else {
            match event {
                FsmEvent::HazardButtonChanged(_) => stay,
                FsmEvent::PowerOff => reject,
                _ => if stationary {
                    TransitionResult { next_state: FsmState::Idle, note: None }
                } else if matches!(current_ctx.headlamp.state, HeadlampState::On) {
                    TransitionResult { next_state: FsmState::Driving, note: None }
                } else if current_ctx.visibility.ambient_lux > LUX_ON_THRESHOLD {
                    TransitionResult { next_state: FsmState::Driving, note: None }
                } else {
                    stay
                },
            }
        },
        FsmState::ExtremeOperationWarning(began_at) => if is_observation(event) {
            stay
        } else {
            match event {
                FsmEvent::HazardButtonChanged(_) => stay,
                FsmEvent::PowerOff => if stationary {
                    TransitionResult {
                        next_state: FsmState::PreparingToStop(AssemblySet::lifecycle_set()),
                        note: None,
                    }
                } else {
                    reject
                },
                FsmEvent::TimerTick => if stationary {
                    TransitionResult { next_state: FsmState::Idle, note: None }
                } else if operational_warning_recovery_ready(*began_at, now, current_ctx) {
                    TransitionResult { next_state: FsmState::Driving, note: None }
                } else {
                    stay
                },
                _ => if stationary {
                    TransitionResult { next_state: FsmState::Idle, note: None }
                } else {
                    stay
                },
            }
        },
        FsmState::PreparingToStop(remaining) => match event {
            FsmEvent::AssemblyZoneReady(id) => {
                let mut rest = *remaining;
                rest.remove(*id);
                if rest.is_empty() {
                    TransitionResult { next_state: FsmState::Off, note: None }
                } else {
                    TransitionResult { next_state: FsmState::PreparingToStop(rest), note: None }
                }
            },
            _ => stay,
        },
    }
}

/// Whether two modes are the same value.
pub fn same_state(a: &FsmState, b: &FsmState) -> (r: bool)
    ensures
        r == (*a == *b),
{
    match (a, b) {
        (FsmState::Off, FsmState::Off) => true,
        (FsmState::PreparingToStart(x), FsmState::PreparingToStart(y)) => same_set(x, y),
        (FsmState::Idle, FsmState::Idle) => true,
        (FsmState::Driving, FsmState::Driving) => true,
        (FsmState::DrivingDangerously, FsmState::DrivingDangerously) => true,
        (FsmState::ExtremeOperationWarning(x), FsmState::ExtremeOperationWarning(y)) => x.same_as(
            y,
        ),
        (FsmState::PreparingToStop(x), FsmState::PreparingToStop(y)) => same_set(x, y),
        _ => false,
    }
}

fn same_set(a: &AssemblySet, b: &AssemblySet) -> (r: bool)
    ensures
        r == (*a == *b),
{
    let r = a.contains(AssemblyId::Sccm) == b.contains(AssemblyId::Sccm) && a.contains(
        AssemblyId::Bcm,
    ) == b.contains(AssemblyId::Bcm) && a.contains(AssemblyId::Flcm) == b.contains(
        AssemblyId::Flcm,
    ) && a.contains(AssemblyId::Headlamp) == b.contains(AssemblyId::Headlamp) && a.contains(
        AssemblyId::Wiper,
    ) == b.contains(AssemblyId::Wiper);
    proof {
        if r {
            assert forall|id: AssemblyId| a@.contains(id) == b@.contains(id) by {
                match id {
                    AssemblyId::Sccm => {},
                    AssemblyId::Bcm => {},
                    AssemblyId::Flcm => {},
                    AssemblyId::Headlamp => {},
                    AssemblyId::Wiper => {},
                }
            }
            assert(a@ =~= b@);
            AssemblySet::lemma_view_injective(*a, *b);
        }
    }
    r
}

/// The actions asked for by the move from `old_state` to `new_state` in context `ctx`.
pub open spec fn spec_output(old_state: FsmState, new_state: FsmState, ctx: VehicleContext) -> Seq<
    FsmActionView,
> {
    let all = spec_all_assemblies();
    match (old_state, new_state) {
        (FsmState::Off, FsmState::PreparingToStart(_)) => seq![FsmActionView::StartAssemblies(all)],
        (FsmState::Idle, FsmState::PreparingToStop(_)) => seq![FsmActionView::StopAssemblies(all)],
        (FsmState::ExtremeOperationWarning(_), FsmState::PreparingToStop(_)) => seq![
            FsmActionView::StopBuzzer,
            FsmActionView::StopAssemblies(all),
        ],
        (FsmState::PreparingToStart(_), FsmState::PreparingToStart(_)) => Seq::empty(),
        (FsmState::PreparingToStop(_), FsmState::PreparingToStop(_)) => Seq::empty(),
        (FsmState::Driving, FsmState::DrivingDangerously) => seq![FsmActionView::StartBuzzer],
        (FsmState::DrivingDangerously, FsmState::Driving) => seq![FsmActionView::StopBuzzer],
        (FsmState::DrivingDangerously, FsmState::Idle) => seq![FsmActionView::StopBuzzer],
        (FsmState::Driving, FsmState::ExtremeOperationWarning(_)) => {
            let speed = ctx.powertrain.speed_kph;
            let rpm = ctx.powertrain.spec_primary_rpm();
            let with_speed = if spec_speed_threshold_exceeded(speed) {
                seq![
                    FsmActionView::StartBuzzer,
                    FsmActionView::LogWarning(SPEED_THRESHOLD_WARNING_MESSAGE@),
                ]
            } else {
                seq![FsmActionView::StartBuzzer]
            };
            if spec_extreme_operation_active(rpm, speed) {
                with_speed.push(FsmActionView::LogWarning(EXTREME_OPERATION_WARNING_MESSAGE@))
            } else {
                with_speed
            }
        },
        (FsmState::ExtremeOperationWarning(_), FsmState::Driving) => seq![FsmActionView::StopBuzzer],
        (FsmState::ExtremeOperationWarning(_), FsmState::Idle) => seq![FsmActionView::StopBuzzer],
        _ => if old_state != new_state {
            seq![FsmActionView::PublishStateSync]
        } else {
            Seq::empty()
        },
    }
}

/// The actions a transition from `old_state` to `new_state` asks for.
pub fn output(old_state: &FsmState, new_state: &FsmState, ctx: &VehicleContext) -> (actions: Vec<
    FsmAction,
>)
    ensures
        actions.deep_view() == spec_output(*old_state, *new_state, *ctx),
{
    let mut actions: Vec<FsmAction> = Vec::new();
    match (old_state, new_state) {
        (FsmState::Off, FsmState::PreparingToStart(_)) => {
            actions.push(FsmAction::StartAssemblies(all_assemblies()));
        },
        (FsmState::Idle, FsmState::PreparingToStop(_)) => {
            actions.push(FsmAction::StopAssemblies(all_assemblies()));
        },
        (FsmState::ExtremeOperationWarning(_), FsmState::PreparingToStop(_)) => {
            actions.push(FsmAction::StopBuzzer);
            actions.push(FsmAction::StopAssemblies(all_assemblies()));
        },
        (FsmState::PreparingToStart(_), FsmState::PreparingToStart(_)) => {},
        (FsmState::PreparingToStop(_), FsmState::PreparingToStop(_)) => {},
        (FsmState::Driving, FsmState::DrivingDangerously) => {
            actions.push(FsmAction::StartBuzzer);
        },
        (FsmState::DrivingDangerously, FsmState::Driving) => {
            actions.push(FsmAction::StopBuzzer);
        },
        (FsmState::DrivingDangerously, FsmState::Idle) => {
            actions.push(FsmAction::StopBuzzer);
        },
        (FsmState::Driving, FsmState::ExtremeOperationWarning(_)) => {
            actions.push(FsmAction::StartBuzzer);
            if speed_threshold_exceeded(ctx.powertrain.speed_kph) {
                actions.push(
                    FsmAction::LogWarning(String::from_str(SPEED_THRESHOLD_WARNING_MESSAGE)),
                );
            }
            if extreme_operation_active(ctx.powertrain.primary_rpm(), ctx.powertrain.speed_kph) {
                actions.push(
                    FsmAction::LogWarning(String::from_str(EXTREME_OPERATION_WARNING_MESSAGE)),
                );
            }
        },
        (FsmState::ExtremeOperationWarning(_), FsmState::Driving) => {
            actions.push(FsmAction::StopBuzzer);
        },
        (FsmState::ExtremeOperationWarning(_), FsmState::Idle) => {
            actions.push(FsmAction::StopBuzzer);
        },
        _ => if !same_state(old_state, new_state) {
            actions.push(FsmAction::PublishStateSync);
        },
    }
    proof {
        assert(actions.deep_view() =~= spec_output(*old_state, *new_state, *ctx));
    }
    actions
}

} // verus!
