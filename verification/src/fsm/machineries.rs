//! FSM vocabulary: states, events, context and actions.
use crate::domain_types::VehicleState;
use vstd::prelude::*;

verus! {

/// Lighting sub-state kept in the context, orthogonal to the drive state.
#[derive(Debug, Clone, Copy, PartialEq, Eq, Structural)]
pub enum LightingState {
    Off,
    OnRequested,
    On,
    OffRequested,
}

#[derive(Debug, Clone, Copy, PartialEq, Eq, Structural)]
pub struct VehicleContext {
    pub rpm: u16,
    pub speed: u8,
    pub fuel_level: u8,
    pub oil_pressure: u8,
    pub tyre_pressure_ok: bool,
    pub ambient_lux: u16,
    pub lighting_state: LightingState,
}

/// The context a twin starts with.
pub open spec fn default_context() -> VehicleContext {
    VehicleContext {
        rpm: 0,
        speed: 0,
        fuel_level: 85,
        oil_pressure: 30,
        tyre_pressure_ok: true,
        ambient_lux: 100,
        lighting_state: LightingState::Off,
    }
}

impl Default for VehicleContext {
    fn default() -> (r: Self)
        ensures
            r == default_context(),
    {
        VehicleContext {
            rpm: 0,
            speed: 0,
            fuel_level: 85,
            oil_pressure: 30,
            tyre_pressure_ok: true,
            ambient_lux: 100,
            lighting_state: LightingState::Off,
        }
    }
}

/// Health guard: enough fuel, enough oil pressure, tyres in order.
pub open spec fn healthy(ctx: VehicleContext) -> bool {
    ctx.fuel_level > 5 && ctx.oil_pressure > 10 && ctx.tyre_pressure_ok
}

impl VehicleContext {
    pub fn is_healthy(&self) -> (r: bool)
        ensures
            r == healthy(*self),
    {
        self.fuel_level > 5 && self.oil_pressure > 10 && self.tyre_pressure_ok
    }
}

/// Drive state. `Warning` carries the monotonic time (nanoseconds) at which it began.
#[derive(Debug, Clone, Copy, PartialEq, Eq, Structural)]
pub enum FsmState {
    Off,
    Idle,
    Driving,
    Warning(u64),
}

#[derive(Debug, Clone, Copy, PartialEq, Eq, Structural)]
pub enum CornerLightsSwitchDirection {
    On,
    Off,
}

#[derive(Debug, Clone, Copy, PartialEq, Eq, Structural)]
pub enum CornerLightsIncompleteCause {
    /// The actuator answered with a negative acknowledgement.
    NegativeAck,
}

#[derive(Debug, Clone, Copy, PartialEq, Eq, Structural)]
pub enum FsmEvent {
    PowerOn,
    PowerOff,
    // Atomic updates from the bus
    UpdateRpm(u16),
    UpdateSpeed(u8),
    UpdateAmbientLux(u16),
    CornerLightsOnConfirmed,
    CornerLightsOffConfirmed,
    /// The actuator did not complete a corner-light switch.
    CornerLightsActuationIncomplete {
        direction: CornerLightsSwitchDirection,
        cause: CornerLightsIncompleteCause,
    },
    // Internal triggers
    TimerTick,
}

#[derive(Debug, Clone, PartialEq)]
pub enum FsmAction {
    /// Trigger the physical buzzer (e.g., for overspeed/high RPM)
    StartBuzzer,
    /// Stop the physical buzzer
    StopBuzzer,
    /// Log a high-priority system alert
    LogWarning(String),
    /// Notify an external cloud/telemetry API of a state change
    PublishStateSync,
    /// No action required
    NoAction,
}

/// Mathematical value of an [`FsmAction`]: the warning text as a character sequence.
pub enum FsmActionView {
    StartBuzzer,
    StopBuzzer,
    LogWarning(Seq<char>),
    PublishStateSync,
    NoAction,
}

impl View for FsmAction {
    type V = FsmActionView;

    open spec fn view(&self) -> FsmActionView {
        match self {
            FsmAction::StartBuzzer => FsmActionView::StartBuzzer,
            FsmAction::StopBuzzer => FsmActionView::StopBuzzer,
            FsmAction::LogWarning(m) => FsmActionView::LogWarning(m@),
            FsmAction::PublishStateSync => FsmActionView::PublishStateSync,
            FsmAction::NoAction => FsmActionView::NoAction,
        }
    }
}

/// Public state that a drive state is reported as.
pub open spec fn public_state(s: FsmState) -> VehicleState {
    match s {
        FsmState::Off => VehicleState::Off,
        FsmState::Idle => VehicleState::Idle,
        FsmState::Driving => VehicleState::Driving,
        FsmState::Warning(_) => VehicleState::Warning,
    }
}

impl<'a> From<&'a FsmState> for VehicleState {
    fn from(fsm: &'a FsmState) -> (r: VehicleState) {
        match fsm {
            FsmState::Off => VehicleState::Off,
            FsmState::Idle => VehicleState::Idle,
            FsmState::Driving => VehicleState::Driving,
            FsmState::Warning(_) => VehicleState::Warning,
        }
    }
}

impl<'a> vstd::std_specs::convert::FromSpecImpl<&'a FsmState> for VehicleState {
    open spec fn obeys_from_spec() -> bool {
        true
    }

    open spec fn from_spec(fsm: &'a FsmState) -> VehicleState {
        public_state(*fsm)
    }
}

} // verus!
