//! The turn pipeline between the pure FSM and the actor runtime: zone routing and merging,
//! quiescence, reorder barriers and the zone runtimes' observation logic.
pub mod bcm_actor;
pub mod connectors;
pub mod constants;
pub mod controller;
pub mod observation_streak;
pub mod zone_replies;
pub mod zone_turn;
pub mod outcome_map;
pub mod sccm_actor;
pub mod detectors;
pub mod flcm_actor;
pub mod headlamp_actor;
pub mod laws;
pub mod turn_barrier;
pub mod twin_turn;
pub mod wiper_actor;
pub mod zone_tell_back;

pub use observation_streak::ObservationStreak;
pub use zone_replies::ZoneReplies;
