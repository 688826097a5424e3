//! Digital twin of a vehicle: a pure operational state machine, the assembly zones it
//! coordinates, the turn pipeline that folds zone replies into FSM steps, and the records the
//! twin publishes to the outside world.
pub mod time;
pub mod vehicle_physics;
pub mod vehicle_state;
pub mod fsm;
pub mod digital_twin;
pub mod twin_runtime;
pub mod observation_records;
pub mod signals;
pub mod domain_types;
