//! The pure decision core: vocabulary, the transition table and the step that records a turn.
pub mod laws;
pub mod machineries;
pub mod transition_map;
pub mod step;

pub use machineries::{
    actions_view, all_assemblies, copy_ids, copy_text, duplicate_actions, spec_all_assemblies,
    spec_vehicle_state, AssemblyId, AssemblySet, DomainAction, DomainActionView, FsmAction,
    FsmActionView, FsmEvent, FsmState, Operational, VehicleState,
};
pub use transition_map::{
    is_observation, operational_warning_recovery_ready, output, same_state, spec_is_observation,
    spec_output, spec_recovery_ready,
    spec_transition, transition, TransitionNote, TransitionResult,
};
pub use step::{
    lift_actions, spec_lift_actions, spec_rejected_power_off_text, spec_step_actions,
    spec_step_ctx, spec_step_state, step, RawTransitionRecord, StepResult,
};
