//! Laws of the operational FSM's lifecycle.
use vstd::prelude::*;

use super::machineries::{AssemblyId, AssemblySet, DomainActionView, FsmEvent, FsmState, spec_all_assemblies};
use super::step::{spec_rejected_power_off_text, spec_step_actions, spec_step_ctx, spec_step_state};
use super::transition_map::{
    spec_is_observation, spec_output, spec_recovery_ready, spec_transition, TransitionNote, TransitionResult,
};
use crate::vehicle_physics::{LUX_ON_THRESHOLD, RPM_DRIVING_THRESHOLD};
use crate::vehicle_state::HeadlampState;
use super::machineries::FsmActionView;
use crate::time::Instant;
use crate::vehicle_state::VehicleContext;

verus! {

broadcast use AssemblySet::lemma_without_view, AssemblySet::lemma_lifecycle_set_view;

/// A power-off is refused while the vehicle is off or driving (in any driving mode, or in a
/// warning while still moving): the mode stays and the only action is the rejection warning
/// naming the mode.
pub proof fn law_power_off_rejected_unless_stopped(state: FsmState, ctx: VehicleContext, now: Instant)
    requires
        state is Off || state is Driving || state is DrivingDangerously || (state is ExtremeOperationWarning
            && !spec_step_ctx(ctx).powertrain.spec_is_stationary()),
    ensures
        spec_step_state(state, ctx, FsmEvent::PowerOff, now) == state,
        spec_step_actions(state, ctx, FsmEvent::PowerOff, now) == seq![
            DomainActionView::LogWarning(spec_rejected_power_off_text(state)),
        ],
{
    reveal_with_fuel(super::step::spec_lift_actions, 1);
}

/// From `Idle` a power-off starts the shutdown of every lifecycle assembly, asking the runtime
/// to stop them.
pub proof fn law_power_off_from_idle_stops_assemblies(ctx: VehicleContext, now: Instant)
    ensures
        spec_step_state(FsmState::Idle, ctx, FsmEvent::PowerOff, now) == FsmState::PreparingToStop(
            AssemblySet::spec_lifecycle_set(),
        ),
        spec_step_actions(FsmState::Idle, ctx, FsmEvent::PowerOff, now) == seq![
            DomainActionView::StopAssemblies(spec_all_assemblies()),
        ],
{
    reveal_with_fuel(super::step::spec_lift_actions, 2);
    assert(seq![super::machineries::FsmActionView::StopAssemblies(spec_all_assemblies())].drop_last()
        =~= Seq::<super::machineries::FsmActionView>::empty());
}

/// An unhealthy vehicle does not start: power-on leaves it off.
pub proof fn law_unhealthy_vehicle_stays_off(ctx: VehicleContext, now: Instant)
    requires
        !ctx.spec_is_healthy(),
    ensures
        spec_step_state(FsmState::Off, ctx, FsmEvent::PowerOn, now) == FsmState::Off,
{
}

/// Start-up completes once every lifecycle assembly reported ready: a healthy vehicle that is
/// powered on and then hears from the BCM is `Idle`, whatever the context of the second step.
pub proof fn law_start_up_countdown_reaches_idle(ctx: VehicleContext, ctx2: VehicleContext, now: Instant, now2: Instant)
    requires
        ctx.spec_is_healthy(),
    ensures
        spec_step_state(
            spec_step_state(FsmState::Off, ctx, FsmEvent::PowerOn, now),
            ctx2,
            FsmEvent::AssemblyZoneReady(AssemblyId::Bcm),
            now2,
        ) == FsmState::Idle,
{
    let s = AssemblySet::spec_lifecycle_set();
    assert(s.without(AssemblyId::Bcm)@ =~= Set::<AssemblyId>::empty()) by {
        assert(spec_all_assemblies().to_set() =~= set![AssemblyId::Bcm]) by {
            assert(spec_all_assemblies()[0] == AssemblyId::Bcm);
            assert forall|id: AssemblyId| spec_all_assemblies().to_set().contains(id) implies id == AssemblyId::Bcm by {
                let i = choose|i: int| 0 <= i < spec_all_assemblies().len() && spec_all_assemblies()[i] == id;
            }
        }
    }
}

/// Shutdown completes once every lifecycle assembly reported ready: a vehicle powered off from
/// `Idle` that then hears from the BCM is `Off`.
pub proof fn law_shutdown_countdown_reaches_off(ctx: VehicleContext, ctx2: VehicleContext, now: Instant, now2: Instant)
    ensures
        spec_step_state(
            spec_step_state(FsmState::Idle, ctx, FsmEvent::PowerOff, now),
            ctx2,
            FsmEvent::AssemblyZoneReady(AssemblyId::Bcm),
            now2,
        ) == FsmState::Off,
{
    let s = AssemblySet::spec_lifecycle_set();
    assert(s.without(AssemblyId::Bcm)@ =~= Set::<AssemblyId>::empty()) by {
        assert(spec_all_assemblies().to_set() =~= set![AssemblyId::Bcm]) by {
            assert(spec_all_assemblies()[0] == AssemblyId::Bcm);
            assert forall|id: AssemblyId| spec_all_assemblies().to_set().contains(id) implies id == AssemblyId::Bcm by {
                let i = choose|i: int| 0 <= i < spec_all_assemblies().len() && spec_all_assemblies()[i] == id;
            }
        }
    }
}

/// The hazard-button observation, the low-beam status reports and the FLCM silence verdict never
/// move an active mode and never trigger a table action, whatever the context: they only update
/// the context through their zones. (Turn-request observations are not among them: they go
/// through the context guards like any other event.)
pub proof fn law_observations_never_move_active_mode(
    state: FsmState,
    ctx: VehicleContext,
    event: FsmEvent,
    now: Instant,
)
    requires
        state is Idle || state is Driving || state is DrivingDangerously || state is ExtremeOperationWarning,
        spec_is_observation(event),
    ensures
        spec_step_state(state, ctx, event, now) == state,
        spec_step_actions(state, ctx, event, now) == Seq::<DomainActionView>::empty(),
{
    reveal_with_fuel(super::step::spec_lift_actions, 1);
}

/// The start-up and shutdown actions name exactly the assemblies the countdown waits for: a
/// healthy power-on enters `PreparingToStart` with the lifecycle set and asks to start the
/// listed lifecycle assemblies; a power-off from `Idle` enters `PreparingToStop` with the same
/// set and asks to stop them; leaving a standing warning for shutdown also stops the buzzer. The
/// listed assemblies are exactly the members of the set.
pub proof fn law_assembly_actions_match_the_countdown(ctx: VehicleContext, now: Instant, began_at: Instant, s: AssemblySet)
    requires
        ctx.spec_is_healthy(),
    ensures
        spec_all_assemblies().to_set() == AssemblySet::spec_lifecycle_set()@,
        spec_transition(FsmState::Off, FsmEvent::PowerOn, ctx, now).next_state == FsmState::PreparingToStart(
            AssemblySet::spec_lifecycle_set(),
        ),
        spec_transition(FsmState::Idle, FsmEvent::PowerOff, ctx, now).next_state == FsmState::PreparingToStop(
            AssemblySet::spec_lifecycle_set(),
        ),
        spec_output(FsmState::Off, FsmState::PreparingToStart(s), ctx) == seq![
            FsmActionView::StartAssemblies(spec_all_assemblies()),
        ],
        spec_output(FsmState::Idle, FsmState::PreparingToStop(s), ctx) == seq![
            FsmActionView::StopAssemblies(spec_all_assemblies()),
        ],
        spec_output(FsmState::ExtremeOperationWarning(began_at), FsmState::PreparingToStop(s), ctx) == seq![
            FsmActionView::StopBuzzer,
            FsmActionView::StopAssemblies(spec_all_assemblies()),
        ],
{
}

/// In an operational warning a power-off is refused exactly while the vehicle moves; standing
/// still waives the cooldown and the power-off starts the shutdown of every lifecycle
/// assembly, with no rejection note.
pub proof fn law_power_off_from_warning_refused_only_while_moving(began_at: Instant, ctx: VehicleContext, now: Instant)
    ensures
        spec_transition(FsmState::ExtremeOperationWarning(began_at), FsmEvent::PowerOff, ctx, now).note
            == Some(TransitionNote::RejectedPowerOff) <==> !ctx.powertrain.spec_is_stationary(),
        ctx.powertrain.spec_is_stationary() ==> spec_transition(
            FsmState::ExtremeOperationWarning(began_at),
            FsmEvent::PowerOff,
            ctx,
            now,
        ) == (TransitionResult {
            next_state: FsmState::PreparingToStop(AssemblySet::spec_lifecycle_set()),
            note: None,
        }),
{
}

/// A step that powers off a warning whose wheels are at or below the driving threshold (the
/// road speed they give is zero) enters `PreparingToStop` with the lifecycle set, silences the
/// buzzer and asks to stop every lifecycle assembly; no rejection warning is logged.
pub proof fn law_power_off_from_standing_warning_starts_shutdown(began_at: Instant, ctx: VehicleContext, now: Instant)
    requires
        ctx.powertrain.wheel_rpm.front_left <= RPM_DRIVING_THRESHOLD,
    ensures
        spec_step_ctx(ctx).powertrain.spec_is_stationary(),
        spec_step_state(FsmState::ExtremeOperationWarning(began_at), ctx, FsmEvent::PowerOff, now)
            == FsmState::PreparingToStop(AssemblySet::spec_lifecycle_set()),
        spec_step_actions(FsmState::ExtremeOperationWarning(began_at), ctx, FsmEvent::PowerOff, now) == seq![
            DomainActionView::StopBuzzer,
            DomainActionView::StopAssemblies(spec_all_assemblies()),
        ],
{
    reveal_with_fuel(super::step::spec_lift_actions, 3);
    let two = seq![FsmActionView::StopBuzzer, FsmActionView::StopAssemblies(spec_all_assemblies())];
    assert(two.drop_last() =~= seq![FsmActionView::StopBuzzer]);
    assert(two.drop_last().drop_last() =~= Seq::<FsmActionView>::empty());
}

/// An event that the active modes judge by the context alone: not an observation, not the
/// hazard button, not a power request and not an internal verdict.
pub open spec fn spec_is_context_event(event: FsmEvent) -> bool {
    &&& !spec_is_observation(event)
    &&& !(event is HazardButtonChanged)
    &&& !(event is PowerOff)
    &&& !(event is PowerOn)
    &&& !(event is Internal)
}

/// Standing still ends every driving mode: in `Driving` with no operational warning, in
/// `DrivingDangerously`, and in an operational warning, any context event with the road speed
/// at zero returns the vehicle to `Idle`, with no note.
pub proof fn law_standing_still_returns_to_idle(state: FsmState, ctx: VehicleContext, event: FsmEvent, now: Instant)
    requires
        state is Driving || state is DrivingDangerously || state is ExtremeOperationWarning,
        spec_is_context_event(event),
        ctx.powertrain.spec_is_stationary(),
        state is Driving ==> !ctx.powertrain.spec_warning_active(),
    ensures
        spec_transition(state, event, ctx, now) == (TransitionResult { next_state: FsmState::Idle, note: None }),
{
}

/// While driving, an operational warning (engine speed or road speed over its limit) on any
/// context event starts the warning at the current instant, moving or not.
pub proof fn law_driving_warning_starts_now(ctx: VehicleContext, event: FsmEvent, now: Instant)
    requires
        spec_is_context_event(event),
        ctx.powertrain.spec_warning_active(),
    ensures
        spec_transition(FsmState::Driving, event, ctx, now) == (TransitionResult {
            next_state: FsmState::ExtremeOperationWarning(now),
            note: None,
        }),
{
}

/// A moving vehicle leaves the operational warning only on a timer tick once the warning has
/// lasted the cooldown with the thresholds clear, and then drives on; before that it stays in
/// the warning, keeping the instant it began.
pub proof fn law_warning_clears_only_after_cooldown(began_at: Instant, ctx: VehicleContext, event: FsmEvent, now: Instant)
    requires
        !ctx.powertrain.spec_is_stationary(),
        event != FsmEvent::PowerOff,
    ensures
        spec_transition(FsmState::ExtremeOperationWarning(began_at), event, ctx, now).note is None,
        spec_transition(FsmState::ExtremeOperationWarning(began_at), event, ctx, now).next_state == if event
            == FsmEvent::TimerTick && spec_recovery_ready(began_at, now, ctx) {
            FsmState::Driving
        } else {
            FsmState::ExtremeOperationWarning(began_at)
        },
{
}

/// Dangerous driving ends on the move once the road is lit, by the lamp being on or by bright
/// ambient light; while it stays dark the mode stays.
pub proof fn law_dangerous_driving_clears_with_light(ctx: VehicleContext, event: FsmEvent, now: Instant)
    requires
        spec_is_context_event(event),
        !ctx.powertrain.spec_is_stationary(),
    ensures
        spec_transition(FsmState::DrivingDangerously, event, ctx, now).note is None,
        spec_transition(FsmState::DrivingDangerously, event, ctx, now).next_state == if ctx.headlamp.state
            == HeadlampState::On || ctx.visibility.ambient_lux > LUX_ON_THRESHOLD {
            FsmState::Driving
        } else {
            FsmState::DrivingDangerously
        },
{
}

/// From `Idle` an engine-speed update starts driving exactly when it is above the driving
/// threshold; otherwise the vehicle stays idle.
pub proof fn law_idle_drives_above_threshold(ctx: VehicleContext, rpm: u16, now: Instant)
    ensures
        spec_transition(FsmState::Idle, FsmEvent::UpdateRpm(rpm), ctx, now) == (TransitionResult {
            next_state: if rpm > RPM_DRIVING_THRESHOLD {
                FsmState::Driving
            } else {
                FsmState::Idle
            },
            note: None,
        }),
{
}

/// The countdowns only move on readiness: while starting (stopping) the assemblies, a ready
/// report drops that assembly from the set, the mode completes to `Idle` (`Off`) once none is
/// left, and any other event leaves the mode as it is, with no note.
pub proof fn law_countdowns_move_only_on_readiness(s: AssemblySet, ctx: VehicleContext, event: FsmEvent, now: Instant)
    ensures
        spec_transition(FsmState::PreparingToStart(s), event, ctx, now).note is None,
        spec_transition(FsmState::PreparingToStop(s), event, ctx, now).note is None,
        event matches FsmEvent::AssemblyZoneReady(id) ==> {
            &&& spec_transition(FsmState::PreparingToStart(s), event, ctx, now).next_state == if s.without(id)@
                == Set::<AssemblyId>::empty() {
                FsmState::Idle
            } else {
                FsmState::PreparingToStart(s.without(id))
            }
            &&& spec_transition(FsmState::PreparingToStop(s), event, ctx, now).next_state == if s.without(id)@
                == Set::<AssemblyId>::empty() {
                FsmState::Off
            } else {
                FsmState::PreparingToStop(s.without(id))
            }
        },
        !(event is AssemblyZoneReady) ==> {
            &&& spec_transition(FsmState::PreparingToStart(s), event, ctx, now).next_state == FsmState::PreparingToStart(s)
            &&& spec_transition(FsmState::PreparingToStop(s), event, ctx, now).next_state == FsmState::PreparingToStop(s)
        },
{
}

} // verus!
