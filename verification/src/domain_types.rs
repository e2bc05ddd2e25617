//! Public vehicle state and the physical-side vocabulary fed into the twin.
use vstd::prelude::*;

pub use crate::vehicle_constants::{
    RPM_GREENLINE_THRESHOLD, RPM_IDLE, RPM_REDLINE_THRESHOLD, RPM_STRESS_DURATION_THRESHOLD_SECS,
};

verus! {

// Vehicle platform ("DBC") identifiers.
pub const ID_SPEED: u32 = 0x123;
pub const ID_RPM: u32 = 0x124;

#[derive(Debug, Clone, Copy, PartialEq, Eq, Structural)]
pub enum VehicleState {
    Off,
    Idle,
    Driving,
    Warning,
    Critical,
}

impl Default for VehicleState {
    fn default() -> (r: Self)
        ensures
            r == VehicleState::Off,
    {
        VehicleState::Off
    }
}

/// A VSS-style telemetry signal.
///
/// Vehicle speed is carried in whole km/h, truncated toward zero from the
/// sensor reading (a reading that is not a number counts as 0).
#[derive(Debug, Clone, Copy, PartialEq, Eq, Structural)]
pub enum VssSignal {
    VehicleSpeed(i64),
    EngineRpm(u16),
    AmbientLux(u16),
}

#[derive(Debug, Clone, Copy, PartialEq, Eq, Structural)]
pub enum VehicleEvent {
    /// Data received from the Ingress Bus
    TelemetryUpdate(VssSignal),
    /// A system-generated heartbeat or check
    TimerTick,
    /// Emergency stop or system reset
    SystemReset,
}

/// Canonical physical-side vocabulary consumed by projection adapters.
#[derive(Debug, Clone, Copy, PartialEq, Eq, Structural)]
pub enum PhysicalCarVocabulary {
    /// Data received from the Ingress Bus
    TelemetryUpdate(VssSignal),
    /// A system-generated heartbeat or check
    TimerTick,
    /// Emergency stop or system reset
    SystemReset,
    /// Actuator confirmed command completion (`on_command`: the ON request was confirmed).
    CornerLightsCommandConfirmed { on_command: bool },
    /// Actuator explicitly rejected the command (`on_command`: the ON request was rejected).
    CornerLightsCommandRejected { on_command: bool },
}

/// The physical vocabulary of an ingress-bus event.
pub open spec fn physical_of_vehicle_event(event: VehicleEvent) -> PhysicalCarVocabulary {
    match event {
        VehicleEvent::TelemetryUpdate(s) => PhysicalCarVocabulary::TelemetryUpdate(s),
        VehicleEvent::TimerTick => PhysicalCarVocabulary::TimerTick,
        VehicleEvent::SystemReset => PhysicalCarVocabulary::SystemReset,
    }
}

/// Maps an ingress-bus event onto the physical vocabulary (same variant, same payload).
pub fn vehicle_event_to_physical_vocabulary(event: VehicleEvent) -> (r: PhysicalCarVocabulary)
    ensures
        r == physical_of_vehicle_event(event),
{
    match event {
        VehicleEvent::TelemetryUpdate(s) => PhysicalCarVocabulary::TelemetryUpdate(s),
        VehicleEvent::TimerTick => PhysicalCarVocabulary::TimerTick,
        VehicleEvent::SystemReset => PhysicalCarVocabulary::SystemReset,
    }
}

} // verus!
