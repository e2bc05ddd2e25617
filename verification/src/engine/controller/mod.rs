pub mod actuation_contract;
pub mod actuation_manager;
pub mod virtual_car_actor;

pub use actuation_contract::{ActuationCommand, ActuationFeedback, CorrelationId};
pub use actuation_manager::{ActuationError, DefaultActuationManager};
