//! The controller: actuation policy and the brain's decision core.
pub mod actuation_contract;
pub mod actuation_manager;
pub mod vehicle_controller;

pub use actuation_contract::{ActuationCommand, ActuationFeedback, CorrelationId};
pub use actuation_manager::{ActuationError, DefaultActuationManager};
pub use vehicle_controller::VehicleControllerError;
pub mod virtual_car_actor;
