pub mod connectors;
pub mod controller;

use vstd::prelude::*;

verus! {

/// The controller's name for the FSM context.
pub type VehicleControllerContext = crate::fsm::VehicleContext;

} // verus!
