//! Projection from the physical-side vocabulary onto the twin's mailbox vocabulary.
use crate::digital_twin::DigitalTwinCarVocabulary;
use crate::domain_types::{PhysicalCarVocabulary, VssSignal};
use crate::fsm::{CornerLightsIncompleteCause, CornerLightsSwitchDirection, FsmEvent};
use vstd::prelude::*;

verus! {

/// A physical input that has no digital counterpart.
#[derive(Debug, Clone, Copy, PartialEq, Eq, Structural)]
pub struct ProjectionError;

/// Maps one vocabulary onto another.
pub trait Projector<In, Out> {
    fn project(&self, input: In) -> Result<Out, ProjectionError>;
}

#[derive(Debug, Default, Clone, Copy)]
pub struct PhysicalToDigitalProjector;

/// Speed in whole km/h clamped into the `u8` range.
pub open spec fn clamped_speed(kph: i64) -> u8 {
    if kph < 0 {
        0
    } else if kph > 255 {
        255
    } else {
        kph as u8
    }
}

/// The FSM event a physical input becomes.
pub open spec fn projected_event(input: PhysicalCarVocabulary) -> FsmEvent {
    match input {
        PhysicalCarVocabulary::TelemetryUpdate(VssSignal::VehicleSpeed(kph)) => FsmEvent::UpdateSpeed(
            clamped_speed(kph),
        ),
        PhysicalCarVocabulary::TelemetryUpdate(VssSignal::EngineRpm(rpm)) => FsmEvent::UpdateRpm(
            rpm,
        ),
        PhysicalCarVocabulary::TelemetryUpdate(VssSignal::AmbientLux(lux)) => FsmEvent::UpdateAmbientLux(lux),
        PhysicalCarVocabulary::TimerTick => FsmEvent::TimerTick,
        PhysicalCarVocabulary::SystemReset => FsmEvent::PowerOff,
        PhysicalCarVocabulary::CornerLightsCommandConfirmed { on_command } => {
            if on_command {
                FsmEvent::CornerLightsOnConfirmed
            } else {
                FsmEvent::CornerLightsOffConfirmed
            }
        },
        PhysicalCarVocabulary::CornerLightsCommandRejected { on_command } => {
            FsmEvent::CornerLightsActuationIncomplete {
                direction: if on_command {
                    CornerLightsSwitchDirection::On
                } else {
                    CornerLightsSwitchDirection::Off
                },
                cause: CornerLightsIncompleteCause::NegativeAck,
            }
        },
    }
}

/// The projection table: a speed in km/h becomes a speed update, clamped into
/// 0..=255 (kept as it is inside that range); RPM and lux updates carry their
/// value; a tick stays a tick; a system reset powers the twin off; a confirmed
/// command confirms the lights in its direction, and a rejected one reports an
/// incomplete actuation in its direction caused by the negative acknowledgement.
pub proof fn law_projection_table(kph: i64, rpm: u16, lux: u16)
    ensures
        0 <= kph <= 255 ==> projected_event(
            PhysicalCarVocabulary::TelemetryUpdate(VssSignal::VehicleSpeed(kph)),
        ) == FsmEvent::UpdateSpeed(kph as u8),
        kph < 0 ==> projected_event(
            PhysicalCarVocabulary::TelemetryUpdate(VssSignal::VehicleSpeed(kph)),
        ) == FsmEvent::UpdateSpeed(0),
        kph > 255 ==> projected_event(
            PhysicalCarVocabulary::TelemetryUpdate(VssSignal::VehicleSpeed(kph)),
        ) == FsmEvent::UpdateSpeed(255),
        projected_event(PhysicalCarVocabulary::TelemetryUpdate(VssSignal::EngineRpm(rpm)))
            == FsmEvent::UpdateRpm(rpm),
        projected_event(PhysicalCarVocabulary::TelemetryUpdate(VssSignal::AmbientLux(lux)))
            == FsmEvent::UpdateAmbientLux(lux),
        projected_event(PhysicalCarVocabulary::TimerTick) == FsmEvent::TimerTick,
        projected_event(PhysicalCarVocabulary::SystemReset) == FsmEvent::PowerOff,
        projected_event(PhysicalCarVocabulary::CornerLightsCommandConfirmed { on_command: true })
            == FsmEvent::CornerLightsOnConfirmed,
        projected_event(PhysicalCarVocabulary::CornerLightsCommandConfirmed { on_command: false })
            == FsmEvent::CornerLightsOffConfirmed,
        projected_event(PhysicalCarVocabulary::CornerLightsCommandRejected { on_command: true })
            == (FsmEvent::CornerLightsActuationIncomplete {
            direction: CornerLightsSwitchDirection::On,
            cause: CornerLightsIncompleteCause::NegativeAck,
        }),
        projected_event(PhysicalCarVocabulary::CornerLightsCommandRejected { on_command: false })
            == (FsmEvent::CornerLightsActuationIncomplete {
            direction: CornerLightsSwitchDirection::Off,
            cause: CornerLightsIncompleteCause::NegativeAck,
        }),
{
}

fn clamp_speed(kph: i64) -> (r: u8)
    ensures
        r == clamped_speed(kph),
{
    if kph < 0 {
        0
    } else if kph > 255 {
        255
    } else {
        kph as u8
    }
}

impl Projector<PhysicalCarVocabulary, DigitalTwinCarVocabulary> for PhysicalToDigitalProjector {
    /// Every physical input has a digital counterpart: the projection never fails.
    fn project(&self, input: PhysicalCarVocabulary) -> (r: Result<
        DigitalTwinCarVocabulary,
        ProjectionError,
    >)
        ensures
            r == Ok::<DigitalTwinCarVocabulary, ProjectionError>(
                DigitalTwinCarVocabulary::Fsm(projected_event(input)),
            ),
    {
        let fsm = match input {
            PhysicalCarVocabulary::TelemetryUpdate(vss) => match vss {
                VssSignal::VehicleSpeed(kph) => FsmEvent::UpdateSpeed(clamp_speed(kph)),
                VssSignal::EngineRpm(rpm) => FsmEvent::UpdateRpm(rpm),
                VssSignal::AmbientLux(lux) => FsmEvent::UpdateAmbientLux(lux),
            },
            PhysicalCarVocabulary::TimerTick => FsmEvent::TimerTick,
            PhysicalCarVocabulary::SystemReset => FsmEvent::PowerOff,
            PhysicalCarVocabulary::CornerLightsCommandConfirmed { on_command } => {
                if on_command {
                    FsmEvent::CornerLightsOnConfirmed
                } else {
                    FsmEvent::CornerLightsOffConfirmed
                }
            },
            PhysicalCarVocabulary::CornerLightsCommandRejected { on_command } => {
                FsmEvent::CornerLightsActuationIncomplete {
                    direction: if on_command {
                        CornerLightsSwitchDirection::On
                    } else {
                        CornerLightsSwitchDirection::Off
                    },
                    cause: CornerLightsIncompleteCause::NegativeAck,
                }
            },
        };
        Ok(DigitalTwinCarVocabulary::Fsm(fsm))
    }
}

} // verus!
