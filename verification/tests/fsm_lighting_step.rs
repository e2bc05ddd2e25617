use sdv_twin::fsm::{
    step, ActorModeHintFromDomain, CornerLightsIncompleteCause, CornerLightsSwitchDirection,
    DomainAction, FsmEvent, FsmState, LightingState, VehicleContext,
};

fn valid_twin_context() -> VehicleContext {
    VehicleContext {
        rpm: 0,
        speed: 0,
        fuel_level: 85,
        oil_pressure: 30,
        tyre_pressure_ok: true,
        ambient_lux: 100,
        lighting_state: LightingState::Off,
    }
}

#[test]
fn given_lights_off_when_lux_below_on_threshold_then_requests_corner_lights_on() {
    let current_state = FsmState::Idle;
    let current_ctx = valid_twin_context();
    let result = step(&current_state, &current_ctx, &FsmEvent::UpdateAmbientLux(20), 0);
    assert!(result.actions.contains(&DomainAction::RequestCornerLightsOn));
}

#[test]
fn given_on_requested_when_ack_on_then_no_duplicate_on_request_emitted() {
    let current_state = FsmState::Idle;
    let current_ctx = VehicleContext {
        lighting_state: LightingState::OnRequested,
        ambient_lux: 20,
        ..valid_twin_context()
    };
    let result = step(&current_state, &current_ctx, &FsmEvent::CornerLightsOnConfirmed, 0);
    assert!(!result.actions.contains(&DomainAction::RequestCornerLightsOn));
}

#[test]
fn given_lights_on_when_lux_above_off_threshold_then_requests_corner_lights_off() {
    let current_state = FsmState::Driving;
    let current_ctx = VehicleContext {
        lighting_state: LightingState::On,
        ambient_lux: 50,
        ..valid_twin_context()
    };
    let result = step(&current_state, &current_ctx, &FsmEvent::UpdateAmbientLux(50), 0);
    assert!(result.actions.contains(&DomainAction::RequestCornerLightsOff));
}

#[test]
fn given_lights_off_when_lux_at_on_threshold_then_requests_corner_lights_on() {
    let result = step(&FsmState::Idle, &valid_twin_context(), &FsmEvent::UpdateAmbientLux(30), 0);
    assert!(result.actions.contains(&DomainAction::RequestCornerLightsOn));
    assert_eq!(result.modified_ctx.lighting_state, LightingState::OnRequested);
}

#[test]
fn given_lights_off_when_lux_in_deadband_then_does_not_request_corner_lights_on() {
    let result = step(&FsmState::Idle, &valid_twin_context(), &FsmEvent::UpdateAmbientLux(40), 0);
    assert!(!result.actions.contains(&DomainAction::RequestCornerLightsOn));
    assert_eq!(result.modified_ctx.lighting_state, LightingState::Off);
}

#[test]
fn given_lights_on_when_lux_at_off_threshold_then_requests_corner_lights_off() {
    let current_ctx = VehicleContext {
        lighting_state: LightingState::On,
        ..valid_twin_context()
    };
    let result = step(&FsmState::Driving, &current_ctx, &FsmEvent::UpdateAmbientLux(45), 0);
    assert!(result.actions.contains(&DomainAction::RequestCornerLightsOff));
    assert_eq!(result.modified_ctx.lighting_state, LightingState::OffRequested);
}

#[test]
fn given_lights_on_when_lux_in_deadband_then_does_not_request_corner_lights_off() {
    let current_ctx = VehicleContext {
        lighting_state: LightingState::On,
        ..valid_twin_context()
    };
    let result = step(&FsmState::Driving, &current_ctx, &FsmEvent::UpdateAmbientLux(40), 0);
    assert!(!result.actions.contains(&DomainAction::RequestCornerLightsOff));
    assert_eq!(result.modified_ctx.lighting_state, LightingState::On);
}

#[test]
fn given_lights_on_requested_when_low_lux_arrives_then_does_not_emit_duplicate_on_request() {
    let current_ctx = VehicleContext {
        lighting_state: LightingState::OnRequested,
        ambient_lux: 20,
        ..valid_twin_context()
    };
    let result = step(&FsmState::Idle, &current_ctx, &FsmEvent::UpdateAmbientLux(20), 0);
    assert!(!result.actions.contains(&DomainAction::RequestCornerLightsOn));
    assert_eq!(result.modified_ctx.lighting_state, LightingState::OnRequested);
}

#[test]
fn given_lights_off_requested_when_high_lux_arrives_then_does_not_emit_duplicate_off_request() {
    let current_ctx = VehicleContext {
        lighting_state: LightingState::OffRequested,
        ambient_lux: 50,
        ..valid_twin_context()
    };
    let result = step(&FsmState::Driving, &current_ctx, &FsmEvent::UpdateAmbientLux(50), 0);
    assert!(!result.actions.contains(&DomainAction::RequestCornerLightsOff));
    assert_eq!(result.modified_ctx.lighting_state, LightingState::OffRequested);
}

#[test]
fn given_on_requested_when_ack_on_then_transitions_to_on() {
    let current_ctx = VehicleContext {
        lighting_state: LightingState::OnRequested,
        ..valid_twin_context()
    };
    let result = step(&FsmState::Driving, &current_ctx, &FsmEvent::CornerLightsOnConfirmed, 0);
    assert_eq!(result.modified_ctx.lighting_state, LightingState::On);
}

#[test]
fn given_off_requested_when_ack_off_then_transitions_to_off() {
    let current_ctx = VehicleContext {
        lighting_state: LightingState::OffRequested,
        ..valid_twin_context()
    };
    let result = step(&FsmState::Driving, &current_ctx, &FsmEvent::CornerLightsOffConfirmed, 0);
    assert_eq!(result.modified_ctx.lighting_state, LightingState::Off);
}

#[test]
fn step_orders_outputs_then_request_then_mode_hint() {
    // Driving with lights on: redline RPM enters Warning.
    let ctx = VehicleContext { lighting_state: LightingState::On, ..valid_twin_context() };
    let r = step(&FsmState::Driving, &ctx, &FsmEvent::UpdateRpm(7500), 77);
    assert_eq!(r.next_state, FsmState::Warning(77));
    assert_eq!(r.modified_ctx.rpm, 7500);
    assert_eq!(
        r.actions,
        vec![
            DomainAction::StartBuzzer,
            DomainAction::LogWarning("Overspeed detected!".to_string()),
            DomainAction::EnterMode(ActorModeHintFromDomain::Transitioning),
        ]
    );
    // Power-on: state sync, then Normal; low lux: the ON request, then Normal.
    let power_on = step(&FsmState::Off, &valid_twin_context(), &FsmEvent::PowerOn, 1);
    assert_eq!(power_on.actions, vec![DomainAction::PublishStateSync, DomainAction::EnterMode(ActorModeHintFromDomain::Normal)]);
    let lux = step(&FsmState::Idle, &valid_twin_context(), &FsmEvent::UpdateAmbientLux(0), 1);
    assert_eq!(lux.actions, vec![DomainAction::RequestCornerLightsOn, DomainAction::EnterMode(ActorModeHintFromDomain::Normal)]);
}

#[test]
fn step_records_the_transition() {
    let ctx = valid_twin_context();
    let r = step(&FsmState::Idle, &ctx, &FsmEvent::UpdateRpm(1500), 5);
    let rec = r.transition_record;
    assert_eq!(rec.at, 5);
    assert_eq!(rec.event, FsmEvent::UpdateRpm(1500));
    assert_eq!(rec.old_state, FsmState::Idle);
    assert_eq!(rec.next_state, FsmState::Driving);
    assert_eq!(rec.old_ctx, ctx);
    assert_eq!(rec.current_ctx, r.modified_ctx);
    assert_eq!(rec.current_ctx.rpm, 1500);
}

#[test]
fn rejection_leaves_context_and_lighting_unchanged() {
    let ctx = VehicleContext { lighting_state: LightingState::OnRequested, ..valid_twin_context() };
    let ev = FsmEvent::CornerLightsActuationIncomplete {
        direction: CornerLightsSwitchDirection::On,
        cause: CornerLightsIncompleteCause::NegativeAck,
    };
    let r = step(&FsmState::Idle, &ctx, &ev, 3);
    assert_eq!(r.modified_ctx, ctx);
    assert_eq!(r.next_state, FsmState::Idle);
}

#[test]
fn lighting_does_not_change_drive_state() {
    let dark_on = VehicleContext { lighting_state: LightingState::On, ambient_lux: 0, ..valid_twin_context() };
    let bright_off = VehicleContext { lighting_state: LightingState::Off, ambient_lux: 900, ..valid_twin_context() };
    for ev in [FsmEvent::PowerOn, FsmEvent::UpdateRpm(2000), FsmEvent::UpdateAmbientLux(10), FsmEvent::TimerTick] {
        for s in [FsmState::Off, FsmState::Idle, FsmState::Driving] {
            assert_eq!(step(&s, &dark_on, &ev, 0).next_state, step(&s, &bright_off, &ev, 0).next_state);
        }
    }
}

#[test]
fn repeated_low_lux_asks_once() {
    let first = step(&FsmState::Idle, &valid_twin_context(), &FsmEvent::UpdateAmbientLux(10), 0);
    assert!(first.actions.contains(&DomainAction::RequestCornerLightsOn));
    let second = step(&FsmState::Idle, &first.modified_ctx, &FsmEvent::UpdateAmbientLux(10), 1);
    assert!(!second.actions.contains(&DomainAction::RequestCornerLightsOn));
}

#[test]
fn given_vehicle_off_when_lux_low_then_lights_stay_off_and_no_on_request() {
    let result = step(&FsmState::Off, &valid_twin_context(), &FsmEvent::UpdateAmbientLux(20), 0);
    assert!(!result.actions.contains(&DomainAction::RequestCornerLightsOn));
    assert_eq!(result.modified_ctx.lighting_state, LightingState::Off);
    assert_eq!(result.next_state, FsmState::Off);
    assert_eq!(result.modified_ctx.ambient_lux, 20);
}

#[test]
fn given_vehicle_off_when_lights_on_and_bright_then_off_request_still_sent() {
    let ctx = VehicleContext { lighting_state: LightingState::On, ..valid_twin_context() };
    let result = step(&FsmState::Off, &ctx, &FsmEvent::UpdateAmbientLux(60), 0);
    assert!(result.actions.contains(&DomainAction::RequestCornerLightsOff));
    assert_eq!(result.modified_ctx.lighting_state, LightingState::OffRequested);
}

#[test]
fn repeated_identical_lux_update_keeps_lighting_and_requests_nothing() {
    for lighting in [LightingState::Off, LightingState::OnRequested, LightingState::On, LightingState::OffRequested] {
        for lux in [0u16, 30, 40, 45, 900] {
            let ctx = VehicleContext { lighting_state: lighting, ..valid_twin_context() };
            let first = step(&FsmState::Driving, &ctx, &FsmEvent::UpdateAmbientLux(lux), 0);
            let second = step(&FsmState::Idle, &first.modified_ctx, &FsmEvent::UpdateAmbientLux(lux), 1);
            assert_eq!(second.modified_ctx.lighting_state, first.modified_ctx.lighting_state);
            assert!(!second.actions.contains(&DomainAction::RequestCornerLightsOn));
            assert!(!second.actions.contains(&DomainAction::RequestCornerLightsOff));
        }
    }
}
