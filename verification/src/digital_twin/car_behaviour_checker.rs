//! State laws: relations between the operational mode and the context that every legal cut of
//! the twin satisfies.
use vstd::prelude::*;

use crate::fsm::FsmState;
use crate::vehicle_physics::{speed_from_rpm, RPM_DRIVING_THRESHOLD};
use crate::vehicle_state::VehicleContext;

verus! {

/// One breached state law: its name and what was observed.
#[derive(Debug, Clone, PartialEq, Eq)]
pub struct LawViolation {
    pub law: &'static str,
    pub detail: String,
}

/// Name of the law "a driving mode has the wheels above the driving threshold".
pub const LAW_RPM_ABOVE_THRESHOLD: &'static str = "rpm_above_threshold";

/// Name of the law "the road speed is the one the wheels give".
pub const LAW_SPEED_MATCHES_WHEELS: &'static str = "speed_matches_wheels";

/// What a breach of [`LAW_RPM_ABOVE_THRESHOLD`] reports.
pub const RPM_LAW_DETAIL: &'static str = "driving mode with wheels at or below the driving threshold";

/// What a breach of [`LAW_SPEED_MATCHES_WHEELS`] reports.
pub const SPEED_LAW_DETAIL: &'static str = "road speed differs from the speed the wheels give";

/// A driving mode has the wheels turning above the driving threshold.
pub open spec fn spec_rpm_law(state: FsmState, ctx: VehicleContext) -> bool {
    (state is Driving || state is DrivingDangerously) ==> ctx.powertrain.spec_primary_rpm()
        > RPM_DRIVING_THRESHOLD
}

/// The road speed is the one the wheels give.
pub open spec fn spec_speed_law(ctx: VehicleContext) -> bool {
    ctx.powertrain.speed_kph == speed_from_rpm(ctx.powertrain.spec_primary_rpm())
}

/// Every state law holds of this cut.
pub open spec fn spec_state_laws_hold(state: FsmState, ctx: VehicleContext) -> bool {
    spec_rpm_law(state, ctx) && spec_speed_law(ctx)
}

/// The names of the laws this cut breaches, in catalog order.
pub open spec fn spec_breached_laws(state: FsmState, ctx: VehicleContext) -> Seq<Seq<char>> {
    let first = if spec_rpm_law(state, ctx) {
        Seq::<Seq<char>>::empty()
    } else {
        seq![LAW_RPM_ABOVE_THRESHOLD@]
    };
    if spec_speed_law(ctx) {
        first
    } else {
        first.push(LAW_SPEED_MATCHES_WHEELS@)
    }
}

/// The breaches of this cut, in catalog order: each law's name and what it reports.
pub open spec fn spec_violations(state: FsmState, ctx: VehicleContext) -> Seq<(Seq<char>, Seq<char>)> {
    let first = if spec_rpm_law(state, ctx) {
        Seq::<(Seq<char>, Seq<char>)>::empty()
    } else {
        seq![(LAW_RPM_ABOVE_THRESHOLD@, RPM_LAW_DETAIL@)]
    };
    if spec_speed_law(ctx) {
        first
    } else {
        first.push((LAW_SPEED_MATCHES_WHEELS@, SPEED_LAW_DETAIL@))
    }
}

/// A list of violations as (name, report) pairs.
pub open spec fn violation_entries(v: Seq<LawViolation>) -> Seq<(Seq<char>, Seq<char>)> {
    v.map_values(|x: LawViolation| (x.law@, x.detail@))
}

/// The names of a list of violations.
pub open spec fn violation_names(v: Seq<LawViolation>) -> Seq<Seq<char>> {
    v.map_values(|x: LawViolation| x.law@)
}

/// Check the state laws of one cut: `Ok` when all hold, otherwise every breached law with a
/// description.
pub fn verify_state_laws(state: &FsmState, ctx: &VehicleContext) -> (r: Result<(), Vec<LawViolation>>)
    ensures
        r is Ok <==> spec_state_laws_hold(*state, *ctx),
        r matches Err(v) ==> violation_names(v@) == spec_breached_laws(*state, *ctx),
        r matches Err(v) ==> violation_entries(v@) == spec_violations(*state, *ctx),
{
    let mut violations: Vec<LawViolation> = Vec::new();
    let driving = match state {
        FsmState::Driving | FsmState::DrivingDangerously => true,
        _ => false,
    };
    if driving && ctx.powertrain.primary_rpm() <= RPM_DRIVING_THRESHOLD {
        violations.push(
            LawViolation {
                law: LAW_RPM_ABOVE_THRESHOLD,
                detail: String::from_str(RPM_LAW_DETAIL),
            },
        );
    }
    if ctx.powertrain.speed_kph != crate::vehicle_physics::calculate_speed_from_rpm(
        ctx.powertrain.primary_rpm(),
    ) {
        violations.push(
            LawViolation {
                law: LAW_SPEED_MATCHES_WHEELS,
                detail: String::from_str(SPEED_LAW_DETAIL),
            },
        );
    }
    proof {
        assert(violation_names(violations@) =~= spec_breached_laws(*state, *ctx));
        assert(violation_entries(violations@) =~= spec_violations(*state, *ctx));
    }
    if violations.len() == 0 {
        Ok(())
    } else {
        Err(violations)
    }
}

} // verus!
