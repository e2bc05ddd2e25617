use sdv_twin::engine::controller::actuation_contract::actuation_command_for;
use sdv_twin::fsm::{ActorModeHintFromDomain, DomainAction};
use sdv_twin::{ActuationCommand, CorrelationId};
use sdv_twin::domain_types::vehicle_event_to_physical_vocabulary;
use sdv_twin::fsm::{CornerLightsIncompleteCause, CornerLightsSwitchDirection, FsmEvent};
use sdv_twin::{
    DigitalTwinCarVocabulary, PhysicalCarVocabulary, PhysicalToDigitalProjector, Projector,
    VehicleEvent, VssSignal,
};

#[test]
fn given_timer_tick_when_projected_then_maps_to_fsm_timer_tick() {
    let projector = PhysicalToDigitalProjector;
    let out = projector
        .project(PhysicalCarVocabulary::TimerTick)
        .expect("projection must succeed");
    match out {
        DigitalTwinCarVocabulary::Fsm(FsmEvent::TimerTick) => {}
        other => panic!("unexpected timer tick mapping: {other:?}"),
    }
}

#[test]
fn given_system_reset_when_projected_then_maps_to_fsm_power_off() {
    let projector = PhysicalToDigitalProjector;
    let out = projector
        .project(PhysicalCarVocabulary::SystemReset)
        .expect("projection must succeed");
    match out {
        DigitalTwinCarVocabulary::Fsm(FsmEvent::PowerOff) => {}
        other => panic!("unexpected reset mapping: {other:?}"),
    }
}

#[test]
fn given_speed_signal_when_projected_then_clamps_to_u8_bounds() {
    let projector = PhysicalToDigitalProjector;
    let low = projector
        .project(PhysicalCarVocabulary::TelemetryUpdate(VssSignal::VehicleSpeed(-1)))
        .expect("low speed projection must succeed");
    let high = projector
        .project(PhysicalCarVocabulary::TelemetryUpdate(VssSignal::VehicleSpeed(500)))
        .expect("high speed projection must succeed");

    match low {
        DigitalTwinCarVocabulary::Fsm(FsmEvent::UpdateSpeed(v)) => assert_eq!(v, 0),
        other => panic!("unexpected low speed mapping: {other:?}"),
    }
    match high {
        DigitalTwinCarVocabulary::Fsm(FsmEvent::UpdateSpeed(v)) => assert_eq!(v, 255),
        other => panic!("unexpected high speed mapping: {other:?}"),
    }
}

#[test]
fn given_rpm_signal_when_projected_then_maps_exact_rpm() {
    let projector = PhysicalToDigitalProjector;
    let out = projector
        .project(PhysicalCarVocabulary::TelemetryUpdate(VssSignal::EngineRpm(4321)))
        .expect("rpm projection must succeed");
    match out {
        DigitalTwinCarVocabulary::Fsm(FsmEvent::UpdateRpm(v)) => assert_eq!(v, 4321),
        other => panic!("unexpected rpm mapping: {other:?}"),
    }
}

#[test]
fn given_ambient_lux_signal_when_projected_then_maps_to_fsm_ambient_lux() {
    let projector = PhysicalToDigitalProjector;
    let out = projector
        .project(PhysicalCarVocabulary::TelemetryUpdate(VssSignal::AmbientLux(28)))
        .expect("ambient lux projection must succeed");
    match out {
        DigitalTwinCarVocabulary::Fsm(FsmEvent::UpdateAmbientLux(v)) => assert_eq!(v, 28),
        other => panic!("unexpected ambient lux mapping: {other:?}"),
    }
}

fn projected(input: PhysicalCarVocabulary) -> FsmEvent {
    match PhysicalToDigitalProjector.project(input) {
        Ok(DigitalTwinCarVocabulary::Fsm(e)) => e,
        other => panic!("unexpected projection: {other:?}"),
    }
}

#[test]
fn speed_inside_range_passes_through() {
    assert_eq!(projected(PhysicalCarVocabulary::TelemetryUpdate(VssSignal::VehicleSpeed(0))), FsmEvent::UpdateSpeed(0));
    assert_eq!(projected(PhysicalCarVocabulary::TelemetryUpdate(VssSignal::VehicleSpeed(88))), FsmEvent::UpdateSpeed(88));
    assert_eq!(projected(PhysicalCarVocabulary::TelemetryUpdate(VssSignal::VehicleSpeed(255))), FsmEvent::UpdateSpeed(255));
    assert_eq!(projected(PhysicalCarVocabulary::TelemetryUpdate(VssSignal::VehicleSpeed(256))), FsmEvent::UpdateSpeed(255));
    assert_eq!(projected(PhysicalCarVocabulary::TelemetryUpdate(VssSignal::VehicleSpeed(i64::MIN))), FsmEvent::UpdateSpeed(0));
}

#[test]
fn actuator_feedback_is_projected_by_direction() {
    assert_eq!(
        projected(PhysicalCarVocabulary::CornerLightsCommandConfirmed { on_command: true }),
        FsmEvent::CornerLightsOnConfirmed
    );
    assert_eq!(
        projected(PhysicalCarVocabulary::CornerLightsCommandConfirmed { on_command: false }),
        FsmEvent::CornerLightsOffConfirmed
    );
    assert_eq!(
        projected(PhysicalCarVocabulary::CornerLightsCommandRejected { on_command: true }),
        FsmEvent::CornerLightsActuationIncomplete {
            direction: CornerLightsSwitchDirection::On,
            cause: CornerLightsIncompleteCause::NegativeAck,
        }
    );
    assert_eq!(
        projected(PhysicalCarVocabulary::CornerLightsCommandRejected { on_command: false }),
        FsmEvent::CornerLightsActuationIncomplete {
            direction: CornerLightsSwitchDirection::Off,
            cause: CornerLightsIncompleteCause::NegativeAck,
        }
    );
}

#[test]
fn ingress_events_map_to_same_physical_variant() {
    assert_eq!(vehicle_event_to_physical_vocabulary(VehicleEvent::TimerTick), PhysicalCarVocabulary::TimerTick);
    assert_eq!(vehicle_event_to_physical_vocabulary(VehicleEvent::SystemReset), PhysicalCarVocabulary::SystemReset);
    assert_eq!(
        vehicle_event_to_physical_vocabulary(VehicleEvent::TelemetryUpdate(VssSignal::EngineRpm(9))),
        PhysicalCarVocabulary::TelemetryUpdate(VssSignal::EngineRpm(9))
    );
}

#[test]
fn corner_light_requests_become_commands_with_the_given_correlation() {
    let cid = CorrelationId { source_id: "car".to_string(), session_id: 9, sequence_no: 4 };
    assert_eq!(
        actuation_command_for(&DomainAction::RequestCornerLightsOn, cid.clone()),
        Some(ActuationCommand::SwitchCornerLightsOn { correlation_id: cid.clone() })
    );
    assert_eq!(
        actuation_command_for(&DomainAction::RequestCornerLightsOff, cid.clone()),
        Some(ActuationCommand::SwitchCornerLightsOff { correlation_id: cid.clone() })
    );
    assert_eq!(actuation_command_for(&DomainAction::StartBuzzer, cid.clone()), None);
    assert_eq!(
        actuation_command_for(&DomainAction::EnterMode(ActorModeHintFromDomain::Normal), cid),
        None
    );
}
