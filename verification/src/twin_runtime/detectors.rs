//! Operational detectors: read the exit cut of a hop and possibly synthesize an internal event.
use vstd::prelude::*;

use crate::fsm::{FsmEvent, FsmState, Operational};
use crate::vehicle_physics::LUX_ON_THRESHOLD;
use crate::vehicle_state::{HeadlampState, VehicleContext};

verus! {

/// Which assembly zones the runtime drives.
#[derive(Debug, Clone, Copy, PartialEq, Eq)]
pub enum AssemblyTopology {
    /// Observed ECUs only: no headlamp or wiper zone, no lux or rain ingress.
    ObservedEcus,
    /// The headlamp and wiper zones are spawned as well.
    Legacy,
}

impl Default for AssemblyTopology {
    fn default() -> (t: AssemblyTopology)
        ensures
            t == AssemblyTopology::ObservedEcus,
    {
        AssemblyTopology::ObservedEcus
    }
}

/// Driving in the dark while the lamp is dark (off, or ready but not yet lit).
pub open spec fn spec_lighting_unsafe(state: FsmState, ctx: VehicleContext) -> bool {
    state is Driving && ctx.visibility.ambient_lux <= LUX_ON_THRESHOLD && (ctx.headlamp.state
        == HeadlampState::Off || ctx.headlamp.state == HeadlampState::Ready)
}

/// `Internal(LightingUnsafe)` when the exit cut is Driving, the ambient light is at or below
/// [`LUX_ON_THRESHOLD`], and the headlamp is dark (`Off` or `Ready`); otherwise nothing.
pub fn lighting_unsafe_detector(exit_state: &FsmState, exit_ctx: &VehicleContext) -> (r: Option<FsmEvent>)
    ensures
        r == if spec_lighting_unsafe(*exit_state, *exit_ctx) {
            Some(FsmEvent::Internal(Operational::LightingUnsafe))
        } else {
            None
        },
{
    if !matches!(exit_state, FsmState::Driving) {
        return None;
    }
    if exit_ctx.visibility.ambient_lux > LUX_ON_THRESHOLD {
        return None;
    }
    if !matches!(exit_ctx.headlamp.state, HeadlampState::Off | HeadlampState::Ready) {
        return None;
    }
    Some(FsmEvent::Internal(Operational::LightingUnsafe))
}

/// The detector catalog for a topology: no topology registers a detector yet.
pub open spec fn spec_detect(state: FsmState, ctx: VehicleContext, topology: AssemblyTopology) -> Option<FsmEvent> {
    None
}

/// Run the detectors registered for `topology` against the exit cut of a hop; first match wins.
/// Observed-ECU topologies have no headlamp zone and the legacy topology keeps the lighting
/// detector unregistered, so neither synthesizes an event.
pub fn detect_internal_after_hop(exit_state: &FsmState, exit_ctx: &VehicleContext, topology: AssemblyTopology) -> (r: Option<FsmEvent>)
    ensures
        r == spec_detect(*exit_state, *exit_ctx, topology),
{
    match topology {
        AssemblyTopology::ObservedEcus | AssemblyTopology::Legacy => None,
    }
}

} // verus!
