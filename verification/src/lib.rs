//! Vehicle digital-twin core: the drive FSM with its lighting sub-state, the
//! twin's safety laws and mailbox vocabulary, the corner-light actuation wire
//! codec and CAN framing, and the acceptance policy for actuator responses.
pub mod actuation_scaffold;
pub mod can_frame;
pub mod codec;
pub mod corner_light_actuation_can;
pub mod devices;
pub mod digital_twin;
pub mod domain_types;
pub mod emulator_models;
pub mod seq_views;
pub mod engine;
pub mod fsm;
pub mod gateway_fsm;
pub mod gateway_launch;
pub mod vehicle_constants;

pub use digital_twin::{DigitalTwinCar, DigitalTwinCarVocabulary, NotFsmVocabulary};
pub use domain_types::{PhysicalCarVocabulary, VehicleEvent, VehicleState, VssSignal};
pub use engine::connectors::{PhysicalToDigitalProjector, ProjectionError, Projector};
pub use engine::controller::virtual_car_actor::{RawTransitionRecord, VirtualCarRuntimeState};
pub use engine::controller::{
    ActuationCommand, ActuationError, ActuationFeedback, CorrelationId, DefaultActuationManager,
};
pub use engine::VehicleControllerContext;
pub use gateway_launch::GatewayLaunchConfig;
