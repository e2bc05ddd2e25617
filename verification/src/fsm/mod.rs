pub mod engine;
pub mod laws;
pub mod machineries;
pub mod step;

pub use engine::{output, transition};
pub use machineries::{
    CornerLightsIncompleteCause, CornerLightsSwitchDirection, FsmAction, FsmEvent, FsmState,
    LightingState, VehicleContext,
};
pub use step::{step, ActorModeHintFromDomain, DomainAction, StepResult, TransitionRecord};
